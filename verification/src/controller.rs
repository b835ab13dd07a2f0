//! The capture-session controller.
//!
//! The controller owns the whole state of a session: the selected device, the
//! filters, the capture generation, the status register, the traffic accumulator
//! and the display state. Commands change that state; `start` also hands out the
//! task for a new capture worker. A worker writes into the accumulator through
//! `record`, which turns away every worker whose generation is stale.

use vstd::prelude::*;
use crate::capture::task_of;
use crate::capture::CaptureTask;
use crate::capture::CaptureTaskView;
use crate::device::device_views;
use crate::device::find_device;
use crate::device::find_named;
use crate::device::Device;
use crate::device::DeviceView;
use crate::filters::AppProtocol;
use crate::filters::Filters;
use crate::filters::FiltersView;
use crate::filters::TransProtocol;
use crate::generation::CaptureGeneration;
use crate::status::page_for;
use crate::status::polling_period;
use crate::status::spec_page;
use crate::status::spec_polling_period;
use crate::status::status_after_reset;
use crate::status::Page;
use crate::status::Status;
use crate::status::StatusRegister;
use crate::styles::toggled;
use crate::styles::Mode;
use crate::traffic::empty_traffic;
use crate::traffic::packet_fits;
use crate::traffic::traffic_with_packet;
use crate::traffic::InfoTraffic;
use crate::traffic::TrafficView;

verus! {

/// What the foreground loop can ask of the controller.
#[derive(Debug)]
pub enum Message {
    /// A wake of the polling timer.
    Tick,
    /// Capture from the interface of this name.
    AdapterSelection(String),
    /// Keep packets of this version of the Internet Protocol.
    IpVersionSelection(String),
    /// Keep packets of this transport protocol.
    TransportProtocolSelection(TransProtocol),
    /// Keep packets of this application protocol.
    AppProtocolSelection(AppProtocol),
    /// Chart this series.
    ChartSelection(String),
    /// Open the report file.
    OpenReport,
    /// Open the project page.
    OpenGithub,
    /// Start a capture.
    Start,
    /// Abandon the capture and return to the configuration view.
    Reset,
    /// Switch the theme.
    Style,
}

/// Mathematical content of a message.
pub enum MessageView {
    Tick,
    AdapterSelection(Seq<char>),
    IpVersionSelection(Seq<char>),
    TransportProtocolSelection(TransProtocol),
    AppProtocolSelection(AppProtocol),
    ChartSelection(Seq<char>),
    OpenReport,
    OpenGithub,
    Start,
    Reset,
    Style,
}

impl View for Message {
    type V = MessageView;

    open spec fn view(&self) -> MessageView {
        match *self {
            Message::Tick => MessageView::Tick,
            Message::AdapterSelection(name) => MessageView::AdapterSelection(name@),
            Message::IpVersionSelection(version) => MessageView::IpVersionSelection(version@),
            Message::TransportProtocolSelection(protocol) => MessageView::TransportProtocolSelection(
                protocol,
            ),
            Message::AppProtocolSelection(protocol) => MessageView::AppProtocolSelection(protocol),
            Message::ChartSelection(series) => MessageView::ChartSelection(series@),
            Message::OpenReport => MessageView::OpenReport,
            Message::OpenGithub => MessageView::OpenGithub,
            Message::Start => MessageView::Start,
            Message::Reset => MessageView::Reset,
            Message::Style => MessageView::Style,
        }
    }
}

impl Clone for Message {
    fn clone(&self) -> (copy: Message)
        ensures
            copy@ == self@,
    {
        match self {
            Message::Tick => Message::Tick,
            Message::AdapterSelection(name) => Message::AdapterSelection(name.clone()),
            Message::IpVersionSelection(version) => Message::IpVersionSelection(version.clone()),
            Message::TransportProtocolSelection(protocol) => Message::TransportProtocolSelection(
                *protocol,
            ),
            Message::AppProtocolSelection(protocol) => Message::AppProtocolSelection(*protocol),
            Message::ChartSelection(series) => Message::ChartSelection(series.clone()),
            Message::OpenReport => Message::OpenReport,
            Message::OpenGithub => Message::OpenGithub,
            Message::Start => Message::Start,
            Message::Reset => Message::Reset,
            Message::Style => Message::Style,
        }
    }
}

/// What the caller has to do after a message was handled.
pub enum Action {
    /// Nothing.
    Nothing,
    /// Launch the viewer of the report file.
    OpenReport,
    /// Launch the browser on the project page.
    OpenGithub,
    /// Spawn a capture worker on the enclosed snapshot.
    StartCapture(CaptureTask),
}

/// Mathematical content of an action.
pub enum ActionView {
    Nothing,
    OpenReport,
    OpenGithub,
    StartCapture(CaptureTaskView),
}

impl View for Action {
    type V = ActionView;

    open spec fn view(&self) -> ActionView {
        match *self {
            Action::Nothing => ActionView::Nothing,
            Action::OpenReport => ActionView::OpenReport,
            Action::OpenGithub => ActionView::OpenGithub,
            Action::StartCapture(task) => ActionView::StartCapture(task@),
        }
    }
}

/// Why a message could not be handled.
#[derive(Clone, Copy, Debug, PartialEq, Eq, Structural)]
pub enum ControllerError {
    /// The network interfaces could not be listed.
    DeviceList,
}

impl ControllerError {
    /// What to tell the user.
    pub fn to_string(&self) -> (text: String)
        ensures
            text@ == "Error retrieving device list"@,
    {
        match self {
            ControllerError::DeviceList => "Error retrieving device list".to_owned(),
        }
    }
}

/// Whether handling a message reads the list of devices.
pub open spec fn needs_listing(message: MessageView) -> bool {
    message is AdapterSelection
}

/// The devices of a listing; of one that failed, none.
pub open spec fn listed(listing: Option<&Vec<Device>>) -> Seq<DeviceView> {
    match listing {
        Some(devices) => device_views(devices@),
        None => Seq::empty(),
    }
}

/// The name of the chart series that counts packets.
pub open spec fn packets_series() -> Seq<char> {
    "packets"@
}

/// Mathematical content of the controller.
pub struct SnifferView {
    /// The device selection.
    pub device: DeviceView,
    /// The filter configuration.
    pub filters: FiltersView,
    /// The capture generation.
    pub generation: nat,
    /// The session status.
    pub status: Status,
    /// Whether a change of status has been published and not yet taken.
    pub pending: bool,
    /// The live traffic accumulator.
    pub traffic: TrafficView,
    /// Whether the chart shows packets rather than bytes.
    pub chart_packets: bool,
    /// The active theme.
    pub style: Mode,
}

/// The state of a new controller.
pub open spec fn initial_state(
    device: DeviceView,
    filters: FiltersView,
    chart_packets: bool,
    style: Mode,
) -> SnifferView {
    SnifferView {
        device,
        filters,
        generation: 0,
        status: Status::Idle,
        pending: false,
        traffic: empty_traffic(),
        chart_packets,
        style,
    }
}

/// Selecting a device: the first device of that name among those listed
/// replaces the selection; a name that is not listed changes nothing.
pub open spec fn after_select_device(
    state: SnifferView,
    name: Seq<char>,
    devices: Seq<DeviceView>,
) -> SnifferView {
    match find_named(devices, name) {
        Some(device) => SnifferView { device, ..state },
        None => state,
    }
}

/// Setting the filter on the version of the Internet Protocol.
pub open spec fn after_set_ip_filter(state: SnifferView, value: Seq<char>) -> SnifferView {
    SnifferView { filters: FiltersView { ip: value, ..state.filters }, ..state }
}

/// Setting the filter on the transport protocol.
pub open spec fn after_set_transport_filter(state: SnifferView, value: TransProtocol) -> SnifferView {
    SnifferView { filters: FiltersView { transport: value, ..state.filters }, ..state }
}

/// Setting the filter on the application protocol.
pub open spec fn after_set_app_filter(state: SnifferView, value: AppProtocol) -> SnifferView {
    SnifferView { filters: FiltersView { application: value, ..state.filters }, ..state }
}

/// Choosing the chart series: packets if asked for by name, bytes otherwise.
pub open spec fn after_set_chart_mode(state: SnifferView, series: Seq<char>) -> SnifferView {
    SnifferView { chart_packets: series == packets_series(), ..state }
}

/// Switching the theme.
pub open spec fn after_toggle_theme(state: SnifferView) -> SnifferView {
    SnifferView { style: toggled(state.style), ..state }
}

/// Starting a capture. From `Idle` a fresh accumulator is installed, the status
/// becomes `Running` and the change is published; the generation stays. In any
/// other status nothing changes.
pub open spec fn after_start(state: SnifferView) -> SnifferView {
    if state.status == Status::Idle {
        SnifferView { traffic: empty_traffic(), status: Status::Running, pending: true, ..state }
    } else {
        state
    }
}

/// The task handed out by a start: from `Idle`, the snapshot of generation,
/// device and filters; in any other status, none.
pub open spec fn task_of_start(state: SnifferView) -> Option<CaptureTaskView> {
    if state.status == Status::Idle {
        Some(task_of(state.generation, state.device, state.filters))
    } else {
        None
    }
}

/// Resetting the session. The generation advances by one, always. A running
/// session returns to `Idle` and the change is published; an idle session stays
/// idle and a stopped one stays stopped.
pub open spec fn after_reset(state: SnifferView) -> SnifferView {
    SnifferView {
        generation: state.generation + 1,
        status: status_after_reset(state.status),
        pending: state.pending || state.status == Status::Running,
        ..state
    }
}

/// Shutting the session down: the status becomes `Stopped`, and the change is
/// published unless the session was stopped already.
pub open spec fn after_shutdown(state: SnifferView) -> SnifferView {
    SnifferView {
        status: Status::Stopped,
        pending: state.pending || state.status != Status::Stopped,
        ..state
    }
}

/// Taking the notification: the slot is emptied.
pub open spec fn after_take_notification(state: SnifferView) -> SnifferView {
    SnifferView { pending: false, ..state }
}

/// Whether a worker started in generation `generation` may still write.
pub open spec fn accepts(state: SnifferView, generation: nat) -> bool {
    state.generation == generation
}

/// A worker started in generation `generation` offering a packet of `bytes`
/// bytes: the packet is added to the accumulator if the worker is accepted, and
/// nothing changes if it is stale.
pub open spec fn after_record(state: SnifferView, generation: nat, bytes: nat) -> SnifferView {
    if accepts(state, generation) {
        SnifferView { traffic: traffic_with_packet(state.traffic, bytes), ..state }
    } else {
        state
    }
}

/// The state after a message was handled, given the devices listed at that time.
pub open spec fn step(state: SnifferView, message: MessageView, devices: Seq<DeviceView>) -> SnifferView {
    match message {
        MessageView::Tick => state,
        MessageView::AdapterSelection(name) => after_select_device(state, name, devices),
        MessageView::IpVersionSelection(version) => after_set_ip_filter(state, version),
        MessageView::TransportProtocolSelection(protocol) => after_set_transport_filter(
            state,
            protocol,
        ),
        MessageView::AppProtocolSelection(protocol) => after_set_app_filter(state, protocol),
        MessageView::ChartSelection(series) => after_set_chart_mode(state, series),
        MessageView::OpenReport => state,
        MessageView::OpenGithub => state,
        MessageView::Start => after_start(state),
        MessageView::Reset => after_reset(state),
        MessageView::Style => after_toggle_theme(state),
    }
}

/// What the caller has to do after a message was handled in `state`.
pub open spec fn action_of(state: SnifferView, message: MessageView) -> ActionView {
    match message {
        MessageView::OpenReport => ActionView::OpenReport,
        MessageView::OpenGithub => ActionView::OpenGithub,
        MessageView::Start => match task_of_start(state) {
            Some(task) => ActionView::StartCapture(task),
            None => ActionView::Nothing,
        },
        _ => ActionView::Nothing,
    }
}

/// The capture-session controller.
pub struct Sniffer {
    device: Device,
    filters: Filters,
    generation: CaptureGeneration,
    status: StatusRegister,
    traffic: InfoTraffic,
    chart_packets: bool,
    style: Mode,
}

impl View for Sniffer {
    type V = SnifferView;

    closed spec fn view(&self) -> SnifferView {
        SnifferView {
            device: self.device@,
            filters: self.filters@,
            generation: self.generation@,
            status: self.status@.status,
            pending: self.status@.pending,
            traffic: self.traffic@,
            chart_packets: self.chart_packets,
            style: self.style,
        }
    }
}

impl Sniffer {
    /// A controller for a fresh session: idle, generation zero, nothing
    /// recorded, nothing published.
    pub fn new(device: Device, filters: Filters, chart_packets: bool, style: Mode) -> (sniffer: Sniffer)
        ensures
            sniffer@ == initial_state(device@, filters@, chart_packets, style),
    {
        Sniffer {
            device,
            filters,
            generation: CaptureGeneration::new(),
            status: StatusRegister::new(),
            traffic: InfoTraffic::new(),
            chart_packets,
            style,
        }
    }

    /// The generation of every controller fits in 64 bits.
    pub proof fn lemma_generation_bounded(&self)
        ensures
            self@.generation <= u64::MAX,
    {
        self.generation.lemma_bounded();
    }

    /// The title of the application window.
    pub fn title(&self) -> (title: String)
        ensures
            title@ == "Sniffnet"@,
    {
        "Sniffnet".to_owned()
    }

    /// The device selection.
    pub fn device(&self) -> (device: &Device)
        ensures
            device@ == self@.device,
    {
        &self.device
    }

    /// The filter configuration.
    pub fn filters(&self) -> (filters: &Filters)
        ensures
            filters@ == self@.filters,
    {
        &self.filters
    }

    /// A snapshot of the capture generation.
    pub fn generation(&self) -> (generation: u64)
        ensures
            generation == self@.generation,
    {
        self.generation.snapshot()
    }

    /// The session status.
    pub fn status(&self) -> (status: Status)
        ensures
            status == self@.status,
    {
        self.status.status()
    }

    /// The live traffic accumulator.
    pub fn traffic(&self) -> (traffic: &InfoTraffic)
        ensures
            traffic@ == self@.traffic,
    {
        &self.traffic
    }

    /// Whether the chart shows packets rather than bytes.
    pub fn chart_packets(&self) -> (packets: bool)
        ensures
            packets == self@.chart_packets,
    {
        self.chart_packets
    }

    /// The active theme.
    pub fn style(&self) -> (style: Mode)
        ensures
            style == self@.style,
    {
        self.style
    }

    /// The interval, in milliseconds, after which the foreground loop wakes
    /// next: the fast one while running, the slow one otherwise.
    pub fn polling_period(&self) -> (period: u64)
        ensures
            period == spec_polling_period(self@.status),
    {
        polling_period(self.status.status())
    }

    /// The page the foreground loop renders.
    pub fn page(&self) -> (page: Page)
        ensures
            page == spec_page(self@.status),
    {
        page_for(self.status.status())
    }

    /// Empties the notification slot and returns whether a change of status
    /// had been published since it was last emptied.
    pub fn take_notification(&mut self) -> (published: bool)
        ensures
            published == old(self)@.pending,
            final(self)@ == after_take_notification(old(self)@),
    {
        self.status.take_notification()
    }

    /// Replaces the device selection by the first device called `name` among
    /// `devices`, the interfaces that can be captured from at the time of the
    /// call. Returns whether there was one; if not, nothing changes.
    pub fn select_device(&mut self, name: &String, devices: &Vec<Device>) -> (found: bool)
        ensures
            final(self)@ == after_select_device(old(self)@, name@, device_views(devices@)),
            found == find_named(device_views(devices@), name@).is_some(),
    {
        match find_device(devices, name) {
            Some(device) => {
                self.device = device;
                true
            },
            None => false,
        }
    }

    /// Replaces the filter on the version of the Internet Protocol. A capture
    /// that is running keeps the filters it was started with.
    pub fn set_ip_filter(&mut self, value: String)
        ensures
            final(self)@ == after_set_ip_filter(old(self)@, value@),
    {
        self.filters.ip = value;
    }

    /// Replaces the filter on the transport protocol. A capture that is
    /// running keeps the filters it was started with.
    pub fn set_transport_filter(&mut self, value: TransProtocol)
        ensures
            final(self)@ == after_set_transport_filter(old(self)@, value),
    {
        self.filters.transport = value;
    }

    /// Replaces the filter on the application protocol. A capture that is
    /// running keeps the filters it was started with.
    pub fn set_app_filter(&mut self, value: AppProtocol)
        ensures
            final(self)@ == after_set_app_filter(old(self)@, value),
    {
        self.filters.application = value;
    }

    /// Chooses the series to chart: packets if `series` names them, bytes
    /// otherwise.
    pub fn set_chart_mode(&mut self, series: &String)
        ensures
            final(self)@ == after_set_chart_mode(old(self)@, series@),
    {
        let packets: String = "packets".to_owned();
        self.chart_packets = *series == packets;
    }

    /// Switches between the day and the night theme.
    pub fn toggle_theme(&mut self)
        ensures
            final(self)@ == after_toggle_theme(old(self)@),
    {
        self.style = self.style.toggle();
    }

    /// Starts a capture. From `Idle`, installs a fresh accumulator, moves to
    /// `Running`, publishes the change and returns the task for the worker to
    /// spawn: the current generation, device and filters. In any other status
    /// nothing changes and no task is returned.
    pub fn start(&mut self) -> (task: Option<CaptureTask>)
        ensures
            final(self)@ == after_start(old(self)@),
            match task {
                Some(task) => task_of_start(old(self)@) == Some(task@),
                None => task_of_start(old(self)@) is None,
            },
    {
        match self.status.status() {
            Status::Idle => {
                self.traffic = InfoTraffic::new();
                let started = self.status.start();
                assert(started);
                Some(
                    CaptureTask::new(
                        self.generation.snapshot(),
                        self.device.clone(),
                        self.filters.clone(),
                    ),
                )
            },
            _ => None,
        }
    }

    /// Whether the generation can still advance, that is, whether `reset` can
    /// be called.
    pub fn can_reset(&self) -> (possible: bool)
        ensures
            possible == (self@.generation < u64::MAX),
    {
        proof {
            self.generation.lemma_bounded();
        }
        !self.generation.is_exhausted()
    }

    /// Resets the session: advances the generation, which makes every worker
    /// started before stale, and then returns a running session to `Idle`,
    /// publishing the change. Does not wait for any worker.
    pub fn reset(&mut self)
        requires
            old(self)@.generation < u64::MAX,
        ensures
            final(self)@ == after_reset(old(self)@),
            final(self)@.generation > old(self)@.generation,
            old(self)@.status != Status::Stopped ==> final(self)@.status == Status::Idle,
    {
        self.generation.advance();
        self.status.reset();
    }

    /// Records that the session was shut down from outside.
    pub fn shutdown(&mut self)
        ensures
            final(self)@ == after_shutdown(old(self)@),
    {
        self.status.stop();
    }

    /// Whether the worker holding `task` is still the current one. A worker
    /// polls this and stops capturing once it is not.
    pub fn is_current(&self, task: &CaptureTask) -> (current: bool)
        ensures
            current == accepts(self@, task@.generation),
    {
        self.generation.is_current(task.generation())
    }

    /// Whether a packet of `bytes` bytes offered by the worker holding `task`
    /// can be handed to `record`: the worker is stale, or the counters have
    /// room for the packet.
    pub fn can_record(&self, task: &CaptureTask, bytes: u128) -> (possible: bool)
        ensures
            possible == (accepts(self@, task@.generation) ==> packet_fits(
                self@.traffic,
                bytes as nat,
            )),
    {
        !self.generation.is_current(task.generation()) || self.traffic.has_room(bytes)
    }

    /// Takes a packet of `bytes` bytes from the worker holding `task`. If the
    /// worker's generation is the current one the packet is added to the
    /// accumulator; if it is stale the packet is dropped and nothing changes.
    /// Returns whether the packet was recorded.
    pub fn record(&mut self, task: &CaptureTask, bytes: u128) -> (recorded: bool)
        requires
            accepts(old(self)@, task@.generation) ==> packet_fits(old(self)@.traffic, bytes as nat),
        ensures
            recorded == accepts(old(self)@, task@.generation),
            final(self)@ == after_record(old(self)@, task@.generation, bytes as nat),
    {
        if self.generation.is_current(task.generation()) {
            self.traffic.add_packet(bytes);
            true
        } else {
            false
        }
    }

    /// Handles one message and returns what the caller has to do next.
    ///
    /// `listing` is the outcome of listing the interfaces that can be captured
    /// from at the time of the call: the devices, or nothing if they could not
    /// be listed. Only the selection of a device reads it. Selecting a device
    /// while the devices cannot be listed is an error, reported to the caller,
    /// and changes nothing; a device that is merely not among those listed is
    /// no error, the selection just stays.
    pub fn update(&mut self, message: Message, listing: Option<&Vec<Device>>) -> (outcome: Result<
        Action,
        ControllerError,
    >)
        requires
            message is Reset ==> old(self)@.generation < u64::MAX,
        ensures
            outcome is Err <==> needs_listing(message@) && listing is None,
            match outcome {
                Ok(action) => {
                    &&& final(self)@ == step(old(self)@, message@, listed(listing))
                    &&& action@ == action_of(old(self)@, message@)
                },
                Err(error) => {
                    &&& final(self)@ == old(self)@
                    &&& error == ControllerError::DeviceList
                },
            },
    {
        match message {
            Message::Tick => Ok(Action::Nothing),
            Message::AdapterSelection(name) => match listing {
                Some(devices) => {
                    self.select_device(&name, devices);
                    Ok(Action::Nothing)
                },
                None => Err(ControllerError::DeviceList),
            },
            Message::IpVersionSelection(version) => {
                self.set_ip_filter(version);
                Ok(Action::Nothing)
            },
            Message::TransportProtocolSelection(protocol) => {
                self.set_transport_filter(protocol);
                Ok(Action::Nothing)
            },
            Message::AppProtocolSelection(protocol) => {
                self.set_app_filter(protocol);
                Ok(Action::Nothing)
            },
            Message::ChartSelection(series) => {
                self.set_chart_mode(&series);
                Ok(Action::Nothing)
            },
            Message::OpenReport => Ok(Action::OpenReport),
            Message::OpenGithub => Ok(Action::OpenGithub),
            Message::Start => match self.start() {
                Some(task) => Ok(Action::StartCapture(task)),
                None => Ok(Action::Nothing),
            },
            Message::Reset => {
                self.reset();
                Ok(Action::Nothing)
            },
            Message::Style => {
                self.toggle_theme();
                Ok(Action::Nothing)
            },
        }
    }
}

} // verus!
