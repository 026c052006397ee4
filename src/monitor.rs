use vstd::prelude::*;
use crate::file_monitor::{index_of, FileMonitor, Handle, MonitorError};

verus! {

/// Registers `callback` for `path` on `monitor`; see
/// [`FileMonitor::register_file`].
pub fn register_file<C>(
    monitor: &mut FileMonitor<C>,
    path: String,
    canonical: Option<String>,
    callback: C,
) -> (r: Result<Handle, MonitorError>)
    requires
        old(monitor).wf(),
    ensures
        final(monitor).wf(),
        match canonical {
            None => {
                &&& final(monitor)@ == old(monitor)@
                &&& r matches Err(MonitorError::PathResolution(p)) && p@ == path@
            },
            Some(c) => {
                &&& final(monitor)@ == old(monitor)@.after_register(c@, callback)
                &&& r matches Ok(h) && h.index == index_of(final(monitor)@.entries, c@)
                    && h.index < final(monitor)@.entries.len()
            },
        },
{
    monitor.register_file(path, canonical, callback)
}

/// Starts the background loop of `monitor`; returns whether the caller is to
/// spawn it. See [`FileMonitor::listen`].
pub fn listen<C>(monitor: &mut FileMonitor<C>) -> (r: bool)
    requires
        old(monitor).wf(),
    ensures
        final(monitor).wf(),
        r == old(monitor)@.starts(),
        final(monitor)@ == old(monitor)@.after_listen(),
{
    monitor.listen()
}

/// Requests the background loop of `monitor` to stop. See
/// [`FileMonitor::stop`].
pub fn stop<C>(monitor: &mut FileMonitor<C>)
    requires
        old(monitor).wf(),
    ensures
        final(monitor).wf(),
        final(monitor)@ == old(monitor)@.after_stop(),
{
    monitor.stop()
}

} // verus!
