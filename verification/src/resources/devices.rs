//! Devices that tests create in an application.
use crate::init::drg::{context_name, device_input, DeviceSpec, DrgCommand, DrgError};
use crate::resources::apps::Application;
use vstd::prelude::*;

verus! {

/// A device that a test created. Unless it is marked as deleted, it is
/// deleted again when the test is done with it.
pub struct Device<'a> {
    app: &'a Application,
    name: String,
    deleted: bool,
}

impl<'a> Device<'a> {
    /// The device's name.
    pub closed spec fn name_view(&self) -> Seq<char> {
        self.name@
    }

    /// The name of the device's application.
    pub closed spec fn app_name(&self) -> Seq<char> {
        self.app.name_view()
    }

    /// Whether the device was marked as deleted.
    pub closed spec fn is_deleted(&self) -> bool {
        self.deleted
    }

    /// The command that creates the device: `drg create device --app <app>
    /// <name>`, with the specification on standard input.
    pub fn create_command(app: &Application, name: &str, spec: &DeviceSpec) -> (r: Result<
        DrgCommand,
        DrgError,
    >)
        ensures
            spec is Other <==> r == Err::<DrgCommand, DrgError>(DrgError::InvalidDeviceSpec),
            !(spec is Other) <==> r is Ok,
            r matches Ok(c) ==> c@.args == seq![
                "create"@,
                "device"@,
                "--app"@,
                app.name_view(),
                name@,
            ] && c@.context == context_name() && c@.input == device_input(*spec),
    {
        app.drg().create_device(app.name(), name, spec)
    }

    /// The device once its creation command has run with `outcome`: it
    /// exists, not marked as deleted, exactly when the command succeeded.
    pub fn new(app: &'a Application, name: String, outcome: Result<String, DrgError>) -> (r: Result<
        Self,
        DrgError,
    >)
        ensures
            outcome is Ok <==> r is Ok,
            r matches Ok(d) ==> d.name_view() == name@ && d.app_name() == app.name_view()
                && !d.is_deleted(),
            outcome matches Err(e) ==> r == Err::<Self, DrgError>(e),
    {
        match outcome {
            Ok(_) => Ok(Device { app, name, deleted: false }),
            Err(e) => Err(e),
        }
    }

    /// Marks the device as deleted, so that it is not deleted again.
    pub fn mark_deleted(&mut self)
        ensures
            final(self).is_deleted(),
            final(self).name_view() == old(self).name_view(),
            final(self).app_name() == old(self).app_name(),
    {
        self.deleted = true;
    }

    pub fn name(&self) -> (r: &str)
        ensures
            r@ == self.name_view(),
    {
        self.name.as_str()
    }

    /// The device's application.
    pub fn app(&self) -> (r: &'a Application)
        ensures
            r.name_view() == self.app_name(),
    {
        self.app
    }

    /// The command that cleans the device up: `drg delete device --app <app>
    /// <name>`, or none once it is marked as deleted.
    pub fn release(&self) -> (r: Option<DrgCommand>)
        ensures
            self.is_deleted() <==> r is None,
            r matches Some(c) ==> c@.args == seq![
                "delete"@,
                "device"@,
                "--app"@,
                self.app_name(),
                self.name_view(),
            ] && c@.input is None && c@.context == context_name(),
    {
        if self.deleted {
            None
        } else {
            Some(self.app.drg().delete_device(self.app.name(), self.name.as_str()))
        }
    }
}

} // verus!
