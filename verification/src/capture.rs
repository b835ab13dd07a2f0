//! What a capture worker is started with: its own snapshot of the session.

use vstd::prelude::*;
use crate::device::Device;
use crate::device::DeviceView;
use crate::filters::Filters;
use crate::filters::FiltersView;

verus! {

/// The lowest port a capture looks at.
pub const LOWEST_PORT: u16 = 0;

/// The highest port a capture looks at.
pub const HIGHEST_PORT: u16 = 65535;

/// The snapshot handed to a capture worker when it is started. It belongs to
/// the worker: nothing the controller does later changes it.
pub struct CaptureTask {
    generation: u64,
    device: Device,
    lowest_port: u16,
    highest_port: u16,
    filters: Filters,
}

/// Mathematical content of a capture task.
pub struct CaptureTaskView {
    /// The capture generation at the time of the start.
    pub generation: nat,
    /// The device selected at the time of the start.
    pub device: DeviceView,
    pub lowest_port: u16,
    pub highest_port: u16,
    /// The filters chosen at the time of the start.
    pub filters: FiltersView,
}

impl View for CaptureTask {
    type V = CaptureTaskView;

    closed spec fn view(&self) -> CaptureTaskView {
        CaptureTaskView {
            generation: self.generation as nat,
            device: self.device@,
            lowest_port: self.lowest_port,
            highest_port: self.highest_port,
            filters: self.filters@,
        }
    }
}

/// The task of a capture of every port, started in generation `generation`
/// on `device` with `filters`.
pub open spec fn task_of(generation: nat, device: DeviceView, filters: FiltersView) -> CaptureTaskView {
    CaptureTaskView {
        generation,
        device,
        lowest_port: LOWEST_PORT,
        highest_port: HIGHEST_PORT,
        filters,
    }
}

impl Clone for CaptureTask {
    fn clone(&self) -> (copy: CaptureTask)
        ensures
            copy@ == self@,
    {
        CaptureTask {
            generation: self.generation,
            device: self.device.clone(),
            lowest_port: self.lowest_port,
            highest_port: self.highest_port,
            filters: self.filters.clone(),
        }
    }
}

impl CaptureTask {
    /// The task of a capture of every port.
    pub fn new(generation: u64, device: Device, filters: Filters) -> (task: CaptureTask)
        ensures
            task@ == task_of(generation as nat, device@, filters@),
    {
        CaptureTask {
            generation,
            device,
            lowest_port: LOWEST_PORT,
            highest_port: HIGHEST_PORT,
            filters,
        }
    }

    /// The generation the worker was started in.
    pub fn generation(&self) -> (generation: u64)
        ensures
            generation == self@.generation,
    {
        self.generation
    }

    /// The device the worker captures from.
    pub fn device(&self) -> (device: &Device)
        ensures
            device@ == self@.device,
    {
        &self.device
    }

    /// The filters the worker applies.
    pub fn filters(&self) -> (filters: &Filters)
        ensures
            filters@ == self@.filters,
    {
        &self.filters
    }

    /// The lowest port the worker looks at.
    pub fn lowest_port(&self) -> (port: u16)
        ensures
            port == self@.lowest_port,
    {
        self.lowest_port
    }

    /// The highest port the worker looks at.
    pub fn highest_port(&self) -> (port: u16)
        ensures
            port == self@.highest_port,
    {
        self.highest_port
    }
}

} // verus!
