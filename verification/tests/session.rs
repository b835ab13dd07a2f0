use sniffnet::capture::CaptureTask;
use sniffnet::controller::Action;
use sniffnet::controller::ControllerError;
use sniffnet::controller::Message;
use sniffnet::controller::Sniffer;
use sniffnet::device::Device;
use sniffnet::filters::AppProtocol;
use sniffnet::filters::Filters;
use sniffnet::filters::TransProtocol;
use sniffnet::generation::CaptureGeneration;
use sniffnet::status::page_for;
use sniffnet::status::polling_period;
use sniffnet::status::Page;
use sniffnet::status::Status;
use sniffnet::status::StatusRegister;
use sniffnet::status::PERIOD_INIT;
use sniffnet::status::PERIOD_RUNNING;
use sniffnet::styles::Mode;
use sniffnet::traffic::InfoTraffic;

fn device(name: &str) -> Device {
    Device { name: name.to_string(), desc: None }
}

fn fresh() -> Sniffer {
    Sniffer::new(
        device("eth0"),
        Filters::new("no filter".to_string(), TransProtocol::Other, AppProtocol::Other),
        true,
        Mode::Night,
    )
}

fn started(sniffer: &mut Sniffer) -> CaptureTask {
    match sniffer.start() {
        Some(task) => task,
        None => panic!("the session was idle, so a task is due"),
    }
}

#[test]
fn new_controller_is_idle_and_empty() {
    let sniffer = fresh();
    assert_eq!(sniffer.status(), Status::Idle);
    assert_eq!(sniffer.generation(), 0);
    assert_eq!(sniffer.traffic().all_packets, 0);
    assert_eq!(sniffer.traffic().all_bytes, 0);
    assert_eq!(sniffer.device().name, "eth0");
    assert_eq!(sniffer.device().desc, None);
    assert_eq!(sniffer.filters().ip, "no filter");
    assert_eq!(sniffer.filters().transport, TransProtocol::Other);
    assert_eq!(sniffer.filters().application, AppProtocol::Other);
    assert!(sniffer.chart_packets());
    assert_eq!(sniffer.style(), Mode::Night);
    assert_eq!(sniffer.title(), "Sniffnet");
}

#[test]
fn filter_then_start_then_reset() {
    let mut sniffer = fresh();
    sniffer.set_ip_filter("ipv4".to_string());
    let task = started(&mut sniffer);
    assert_eq!(sniffer.status(), Status::Running);
    assert_eq!(sniffer.traffic().all_packets, 0);
    assert_eq!(sniffer.traffic().all_bytes, 0);
    assert_eq!(task.generation(), 0);
    assert_eq!(task.filters().ip, "ipv4");
    assert_eq!(task.device().name, "eth0");
    assert!(sniffer.record(&task, 60));
    assert_eq!(sniffer.traffic().all_packets, 1);

    sniffer.reset();
    assert_eq!(sniffer.status(), Status::Idle);
    assert_eq!(sniffer.generation(), 1);
    assert!(!sniffer.is_current(&task));
    assert!(!sniffer.record(&task, 1500));
    assert_eq!(sniffer.traffic().all_packets, 1);
    assert_eq!(sniffer.traffic().all_bytes, 60);
}

#[test]
fn second_start_changes_nothing() {
    let mut sniffer = fresh();
    let task = started(&mut sniffer);
    assert!(sniffer.record(&task, 100));
    assert!(sniffer.take_notification());
    assert!(sniffer.start().is_none());
    assert_eq!(sniffer.status(), Status::Running);
    assert_eq!(sniffer.generation(), 0);
    assert_eq!(sniffer.traffic().all_packets, 1);
    assert_eq!(sniffer.traffic().all_bytes, 100);
    assert!(!sniffer.take_notification());
    assert!(sniffer.is_current(&task));
}

#[test]
fn many_starts_spawn_one_worker() {
    let mut sniffer = fresh();
    let mut spawned = 0;
    for _ in 0..10 {
        if let Ok(Action::StartCapture(_)) = sniffer.update(Message::Start, None) {
            spawned += 1;
        }
    }
    assert_eq!(spawned, 1);
    assert_eq!(sniffer.generation(), 0);
}

#[test]
fn each_session_has_its_own_generation() {
    let mut sniffer = fresh();
    let first = started(&mut sniffer);
    sniffer.reset();
    let second = started(&mut sniffer);
    sniffer.reset();
    let third = started(&mut sniffer);
    assert_eq!(first.generation(), 0);
    assert_eq!(second.generation(), 1);
    assert_eq!(third.generation(), 2);
    assert!(!sniffer.is_current(&first));
    assert!(!sniffer.is_current(&second));
    assert!(sniffer.is_current(&third));
}

#[test]
fn reset_always_advances_the_generation() {
    let mut sniffer = fresh();
    sniffer.reset();
    assert_eq!(sniffer.status(), Status::Idle);
    assert_eq!(sniffer.generation(), 1);
    assert!(!sniffer.take_notification());
    sniffer.reset();
    assert_eq!(sniffer.generation(), 2);
    started(&mut sniffer);
    assert!(sniffer.take_notification());
    sniffer.reset();
    assert_eq!(sniffer.status(), Status::Idle);
    assert_eq!(sniffer.generation(), 3);
    assert!(sniffer.take_notification());
    assert!(sniffer.can_reset());
}

#[test]
fn stopped_is_never_left() {
    let mut sniffer = fresh();
    started(&mut sniffer);
    assert!(sniffer.take_notification());
    sniffer.shutdown();
    assert_eq!(sniffer.status(), Status::Stopped);
    assert!(sniffer.take_notification());
    assert!(sniffer.start().is_none());
    assert_eq!(sniffer.status(), Status::Stopped);
    sniffer.reset();
    assert_eq!(sniffer.status(), Status::Stopped);
    assert_eq!(sniffer.generation(), 1);
    sniffer.shutdown();
    assert!(!sniffer.take_notification());
    assert_eq!(sniffer.page(), Page::Blank);
    assert_eq!(sniffer.polling_period(), 5000);
}

#[test]
fn worker_stops_writing_after_reset() {
    let mut sniffer = fresh();
    let task = started(&mut sniffer);
    let mut written = 0;
    for packet in 0..20u128 {
        if packet == 7 {
            sniffer.reset();
        }
        if !sniffer.is_current(&task) {
            assert!(!sniffer.record(&task, 64));
            continue;
        }
        assert!(sniffer.can_record(&task, 64));
        assert!(sniffer.record(&task, 64));
        written += 1;
    }
    assert_eq!(written, 7);
    assert_eq!(sniffer.traffic().all_packets, 7);
    assert_eq!(sniffer.traffic().all_bytes, 7 * 64);
}

#[test]
fn stale_worker_cannot_touch_the_next_session() {
    let mut sniffer = fresh();
    let old = started(&mut sniffer);
    assert!(sniffer.record(&old, 10));
    sniffer.reset();
    let new = started(&mut sniffer);
    assert_eq!(sniffer.traffic().all_packets, 0);
    assert!(!sniffer.record(&old, 999));
    assert!(sniffer.record(&new, 5));
    assert!(!sniffer.record(&old, 999));
    assert_eq!(sniffer.traffic().all_packets, 1);
    assert_eq!(sniffer.traffic().all_bytes, 5);
}

#[test]
fn start_installs_a_fresh_accumulator() {
    let mut sniffer = fresh();
    let first = started(&mut sniffer);
    assert!(sniffer.record(&first, 1));
    assert!(sniffer.record(&first, 2));
    sniffer.reset();
    assert_eq!(sniffer.traffic().all_packets, 2);
    assert_eq!(sniffer.traffic().all_bytes, 3);
    started(&mut sniffer);
    assert_eq!(sniffer.traffic().all_packets, 0);
    assert_eq!(sniffer.traffic().all_bytes, 0);
}

#[test]
fn running_worker_keeps_its_snapshot() {
    let mut sniffer = fresh();
    sniffer.set_ip_filter("ipv4".to_string());
    sniffer.set_transport_filter(TransProtocol::TCP);
    sniffer.set_app_filter(AppProtocol::HTTPS);
    let task = started(&mut sniffer);

    let listed = vec![device("eth0"), device("wlan0")];
    sniffer.set_ip_filter("ipv6".to_string());
    sniffer.set_transport_filter(TransProtocol::UDP);
    sniffer.set_app_filter(AppProtocol::DNS);
    assert!(sniffer.select_device(&"wlan0".to_string(), &listed));

    assert_eq!(task.filters().ip, "ipv4");
    assert_eq!(task.filters().transport, TransProtocol::TCP);
    assert_eq!(task.filters().application, AppProtocol::HTTPS);
    assert_eq!(task.device().name, "eth0");
    assert_eq!(task.generation(), 0);
    assert_eq!(sniffer.status(), Status::Running);
    assert_eq!(sniffer.generation(), 0);
    assert!(sniffer.is_current(&task));
    assert!(sniffer.record(&task, 40));

    sniffer.reset();
    let next = started(&mut sniffer);
    assert_eq!(next.filters().ip, "ipv6");
    assert_eq!(next.filters().transport, TransProtocol::UDP);
    assert_eq!(next.filters().application, AppProtocol::DNS);
    assert_eq!(next.device().name, "wlan0");
    assert_eq!(next.generation(), 1);
}

#[test]
fn task_covers_every_port() {
    let mut sniffer = fresh();
    let task = started(&mut sniffer);
    assert_eq!(task.lowest_port(), 0);
    assert_eq!(task.highest_port(), 65535);
    let copy = task.clone();
    assert_eq!(copy.generation(), task.generation());
    assert_eq!(copy.device().name, task.device().name);
    assert_eq!(copy.filters().ip, task.filters().ip);
    let made = CaptureTask::new(4, device("lo"), sniffer.filters().clone());
    assert_eq!(made.generation(), 4);
    assert_eq!(made.device().name, "lo");
    assert_eq!(made.lowest_port(), 0);
    assert_eq!(made.highest_port(), 65535);
}

#[test]
fn cadence_follows_the_status() {
    assert_eq!(PERIOD_RUNNING, 1000);
    assert_eq!(PERIOD_INIT, 5000);
    assert_eq!(polling_period(Status::Running), 1000);
    assert_eq!(polling_period(Status::Idle), 5000);
    assert_eq!(polling_period(Status::Stopped), 5000);

    let mut sniffer = fresh();
    assert_eq!(sniffer.polling_period(), 5000);
    started(&mut sniffer);
    assert_eq!(sniffer.polling_period(), 1000);
    sniffer.reset();
    assert_eq!(sniffer.polling_period(), 5000);
}

#[test]
fn page_follows_the_status() {
    assert_eq!(page_for(Status::Idle), Page::Initial);
    assert_eq!(page_for(Status::Running), Page::Run);
    assert_eq!(page_for(Status::Stopped), Page::Blank);
    let mut sniffer = fresh();
    assert_eq!(sniffer.page(), Page::Initial);
    started(&mut sniffer);
    assert_eq!(sniffer.page(), Page::Run);
}

#[test]
fn status_change_is_published_once() {
    let mut sniffer = fresh();
    assert!(!sniffer.take_notification());
    started(&mut sniffer);
    assert!(sniffer.take_notification());
    assert!(!sniffer.take_notification());
    sniffer.set_ip_filter("ipv4".to_string());
    sniffer.toggle_theme();
    assert!(!sniffer.take_notification());
}

#[test]
fn register_moves_only_as_allowed() {
    let mut register = StatusRegister::new();
    assert_eq!(register.status(), Status::Idle);
    assert!(!register.is_pending());
    register.reset();
    assert_eq!(register.status(), Status::Idle);
    assert!(!register.is_pending());
    assert!(register.start());
    assert_eq!(register.status(), Status::Running);
    assert!(register.is_pending());
    assert!(!register.start());
    assert!(register.take_notification());
    assert!(!register.is_pending());
    register.reset();
    assert_eq!(register.status(), Status::Idle);
    assert!(register.take_notification());
    register.stop();
    assert_eq!(register.status(), Status::Stopped);
    assert!(register.take_notification());
    assert!(!register.start());
    register.reset();
    register.stop();
    assert_eq!(register.status(), Status::Stopped);
    assert!(!register.take_notification());
}

#[test]
fn generation_counts_up() {
    let mut generation = CaptureGeneration::new();
    assert_eq!(generation.snapshot(), 0);
    assert!(generation.is_current(0));
    assert!(!generation.is_exhausted());
    let before = generation.snapshot();
    generation.advance();
    assert_eq!(generation.snapshot(), 1);
    assert!(!generation.is_current(before));
    assert!(generation.is_current(1));
    generation.advance();
    assert_eq!(generation.snapshot(), 2);
}

#[test]
fn accumulator_adds_up() {
    let mut traffic = InfoTraffic::new();
    assert_eq!(traffic.all_packets, 0);
    assert_eq!(traffic.all_bytes, 0);
    traffic.add_packet(1500);
    traffic.add_packet(0);
    traffic.add_packet(40);
    assert_eq!(traffic.all_packets, 3);
    assert_eq!(traffic.all_bytes, 1540);
}

#[test]
fn accumulator_knows_when_it_is_full() {
    let roomy = InfoTraffic { all_packets: 5, all_bytes: u128::MAX - 10 };
    assert!(roomy.has_room(10));
    assert!(!roomy.has_room(11));
    let counted_out = InfoTraffic { all_packets: u128::MAX, all_bytes: 0 };
    assert!(!counted_out.has_room(0));
    let mut last = InfoTraffic { all_packets: u128::MAX - 1, all_bytes: u128::MAX - 1 };
    assert!(last.has_room(1));
    last.add_packet(1);
    assert_eq!(last.all_packets, u128::MAX);
    assert_eq!(last.all_bytes, u128::MAX);
}

#[test]
fn chart_shows_packets_only_when_asked() {
    let mut sniffer = fresh();
    sniffer.set_chart_mode(&"bytes".to_string());
    assert!(!sniffer.chart_packets());
    sniffer.set_chart_mode(&"packets".to_string());
    assert!(sniffer.chart_packets());
    sniffer.set_chart_mode(&"Packets".to_string());
    assert!(!sniffer.chart_packets());
    sniffer.set_chart_mode(&"packets".to_string());
    sniffer.set_chart_mode(&String::new());
    assert!(!sniffer.chart_packets());
}

#[test]
fn theme_toggles() {
    let mut sniffer = fresh();
    sniffer.toggle_theme();
    assert_eq!(sniffer.style(), Mode::Day);
    sniffer.toggle_theme();
    assert_eq!(sniffer.style(), Mode::Night);
    assert_eq!(Mode::Day.toggle(), Mode::Night);
    assert_eq!(Mode::Night.toggle(), Mode::Day);
}

#[test]
fn update_handles_every_message() {
    let mut sniffer = fresh();
    let devices = vec![device("lo"), device("wlan0")];
    let listed = Some(&devices);

    assert!(matches!(sniffer.update(Message::Tick, listed), Ok(Action::Nothing)));
    assert_eq!(sniffer.status(), Status::Idle);

    let reply = sniffer.update(Message::AdapterSelection("wlan0".to_string()), listed);
    assert!(matches!(reply, Ok(Action::Nothing)));
    assert_eq!(sniffer.device().name, "wlan0");

    let reply = sniffer.update(Message::AdapterSelection("tun7".to_string()), listed);
    assert!(matches!(reply, Ok(Action::Nothing)));
    assert_eq!(sniffer.device().name, "wlan0");

    let reply = sniffer.update(Message::IpVersionSelection("ipv6".to_string()), listed);
    assert!(matches!(reply, Ok(Action::Nothing)));
    assert_eq!(sniffer.filters().ip, "ipv6");

    let reply = sniffer.update(Message::TransportProtocolSelection(TransProtocol::UDP), listed);
    assert!(matches!(reply, Ok(Action::Nothing)));
    assert_eq!(sniffer.filters().transport, TransProtocol::UDP);

    let reply = sniffer.update(Message::AppProtocolSelection(AppProtocol::DNS), listed);
    assert!(matches!(reply, Ok(Action::Nothing)));
    assert_eq!(sniffer.filters().application, AppProtocol::DNS);

    let reply = sniffer.update(Message::ChartSelection("bytes".to_string()), listed);
    assert!(matches!(reply, Ok(Action::Nothing)));
    assert!(!sniffer.chart_packets());

    assert!(matches!(sniffer.update(Message::OpenReport, listed), Ok(Action::OpenReport)));
    assert!(matches!(sniffer.update(Message::OpenGithub, listed), Ok(Action::OpenGithub)));
    assert_eq!(sniffer.status(), Status::Idle);
    assert_eq!(sniffer.generation(), 0);

    let task = match sniffer.update(Message::Start, listed) {
        Ok(Action::StartCapture(task)) => task,
        _ => panic!("a start from idle spawns a worker"),
    };
    assert_eq!(task.generation(), 0);
    assert_eq!(task.device().name, "wlan0");
    assert_eq!(task.filters().ip, "ipv6");
    assert_eq!(task.filters().transport, TransProtocol::UDP);
    assert_eq!(task.filters().application, AppProtocol::DNS);
    assert_eq!(sniffer.status(), Status::Running);

    assert!(matches!(sniffer.update(Message::Start, listed), Ok(Action::Nothing)));

    assert!(matches!(sniffer.update(Message::Reset, listed), Ok(Action::Nothing)));
    assert_eq!(sniffer.status(), Status::Idle);
    assert_eq!(sniffer.generation(), 1);

    assert!(matches!(sniffer.update(Message::Style, listed), Ok(Action::Nothing)));
    assert_eq!(sniffer.style(), Mode::Day);
}

#[test]
fn failed_listing_is_reported_and_changes_nothing() {
    let mut sniffer = fresh();
    sniffer.set_ip_filter("ipv4".to_string());
    let reply = sniffer.update(Message::AdapterSelection("eth0".to_string()), None);
    assert!(matches!(reply, Err(ControllerError::DeviceList)));
    assert_eq!(sniffer.device().name, "eth0");
    assert_eq!(sniffer.filters().ip, "ipv4");
    assert_eq!(sniffer.status(), Status::Idle);
    assert_eq!(sniffer.generation(), 0);
    assert!(!sniffer.take_notification());
    assert_eq!(ControllerError::DeviceList.to_string(), "Error retrieving device list");
}

#[test]
fn only_device_selection_needs_the_listing() {
    let mut sniffer = fresh();
    assert!(matches!(sniffer.update(Message::Tick, None), Ok(Action::Nothing)));
    let reply = sniffer.update(Message::IpVersionSelection("ipv4".to_string()), None);
    assert!(matches!(reply, Ok(Action::Nothing)));
    let reply = sniffer.update(Message::TransportProtocolSelection(TransProtocol::TCP), None);
    assert!(matches!(reply, Ok(Action::Nothing)));
    let reply = sniffer.update(Message::AppProtocolSelection(AppProtocol::SSH), None);
    assert!(matches!(reply, Ok(Action::Nothing)));
    let reply = sniffer.update(Message::ChartSelection("packets".to_string()), None);
    assert!(matches!(reply, Ok(Action::Nothing)));
    assert!(matches!(sniffer.update(Message::OpenReport, None), Ok(Action::OpenReport)));
    assert!(matches!(sniffer.update(Message::OpenGithub, None), Ok(Action::OpenGithub)));
    assert!(matches!(sniffer.update(Message::Style, None), Ok(Action::Nothing)));
    assert!(matches!(sniffer.update(Message::Start, None), Ok(Action::StartCapture(_))));
    assert!(matches!(sniffer.update(Message::Reset, None), Ok(Action::Nothing)));
    assert_eq!(sniffer.filters().ip, "ipv4");
    assert_eq!(sniffer.filters().transport, TransProtocol::TCP);
    assert_eq!(sniffer.filters().application, AppProtocol::SSH);
    assert_eq!(sniffer.generation(), 1);
}

#[test]
fn selecting_from_an_empty_listing_is_no_error() {
    let mut sniffer = fresh();
    let nothing: Vec<Device> = Vec::new();
    let reply = sniffer.update(Message::AdapterSelection("wlan0".to_string()), Some(&nothing));
    assert!(matches!(reply, Ok(Action::Nothing)));
    assert_eq!(sniffer.device().name, "eth0");
}

#[test]
fn message_clone_keeps_the_payload() {
    let message = Message::AdapterSelection("en0".to_string());
    match message.clone() {
        Message::AdapterSelection(name) => assert_eq!(name, "en0"),
        _ => panic!("a clone is the same message"),
    }
    assert!(matches!(Message::Reset.clone(), Message::Reset));
    assert!(matches!(
        Message::TransportProtocolSelection(TransProtocol::TCP).clone(),
        Message::TransportProtocolSelection(TransProtocol::TCP)
    ));
}
