use ap_server::failure::Failure;
use ap_server::gateway::{
    parse_address, parse_gateway, parse_octet, resolve_gateway, stack_seed, static_config,
    GatewayAddress, GatewayError, DEFAULT_GATEWAY, PREFIX_LEN,
};
use ap_server::startup::{
    plan_stack, Bringup, BringupCommand, BringupEvent, BringupState, Task,
    LINK_POLL_INTERVAL_MS, SOCKET_POOL_CAPACITY,
};

fn address(a: u8, b: u8, c: u8, d: u8) -> GatewayAddress {
    GatewayAddress { octets: [a, b, c, d] }
}

#[test]
fn default_gateway_is_192_168_2_1() {
    assert_eq!(DEFAULT_GATEWAY, "192.168.2.1");
    assert_eq!(resolve_gateway(None), Ok(address(192, 168, 2, 1)));
}

#[test]
fn configured_gateway_overrides_default() {
    assert_eq!(resolve_gateway(Some("10.0.0.254")), Ok(address(10, 0, 0, 254)));
}

#[test]
fn malformed_gateway_does_not_fall_back() {
    assert_eq!(resolve_gateway(Some("192.168.2")), Err(GatewayError::Malformed));
    assert_eq!(resolve_gateway(Some("")), Err(GatewayError::Malformed));
    assert_eq!(resolve_gateway(Some("gateway")), Err(GatewayError::Malformed));
}

#[test]
fn parse_gateway_accepts_dotted_quads() {
    assert_eq!(parse_gateway("0.0.0.0"), Ok(address(0, 0, 0, 0)));
    assert_eq!(parse_gateway("255.255.255.255"), Ok(address(255, 255, 255, 255)));
    assert_eq!(parse_gateway("1.20.100.9"), Ok(address(1, 20, 100, 9)));
    assert_eq!(parse_gateway("127.0.0.1"), Ok(address(127, 0, 0, 1)));
    assert_eq!(parse_address(b"192.168.2.1"), Ok(address(192, 168, 2, 1)));
}

#[test]
fn parse_gateway_rejects_malformed_text() {
    for text in [
        "",
        ".",
        "...",
        "1",
        "1.1.1",
        "1.1.1.",
        ".1.1.1",
        "1..1.1",
        "1.1.1.1.",
        "1.1.1.1.1",
        "256.1.1.1",
        "1.1.1.256",
        "1.1.1.300",
        "1.1.1.1000",
        "1234.1.1.1",
        "01.1.1.1",
        "1.1.1.01",
        "1.00.1.1",
        "1.1.1.1 ",
        " 1.1.1.1",
        "1.1.1.1\n",
        "1.1 .1.1",
        "a.b.c.d",
        "1.1.1.x",
        "-1.1.1.1",
        "+1.1.1.1",
        "1,1,1,1",
        "0x1.1.1.1",
        "1.1.1.1/24",
        "::1",
    ] {
        assert_eq!(parse_gateway(text), Err(GatewayError::Malformed), "{:?}", text);
    }
}

#[test]
fn parse_gateway_is_the_inverse_of_formatting() {
    for a in [0u8, 1, 9, 10, 11, 99, 100, 101, 199, 200, 249, 250, 255] {
        for d in [0u8, 7, 10, 42, 100, 255] {
            let text = format!("{}.{}.{}.{}", a, d, 255 - a, 255 - d);
            assert_eq!(parse_gateway(&text), Ok(address(a, d, 255 - a, 255 - d)));
        }
    }
}

#[test]
fn parse_octet_reads_one_numeral() {
    assert_eq!(parse_octet(b"192.168", 0), Some((192, 3)));
    assert_eq!(parse_octet(b"192.168", 4), Some((168, 7)));
    assert_eq!(parse_octet(b"0", 0), Some((0, 1)));
    assert_eq!(parse_octet(b"255", 0), Some((255, 3)));
    assert_eq!(parse_octet(b"7x", 0), Some((7, 1)));
}

#[test]
fn parse_octet_rejects_what_is_no_octet() {
    assert_eq!(parse_octet(b"", 0), None);
    assert_eq!(parse_octet(b"192.168", 3), None);
    assert_eq!(parse_octet(b"192.168", 7), None);
    assert_eq!(parse_octet(b"256", 0), None);
    assert_eq!(parse_octet(b"999", 0), None);
    assert_eq!(parse_octet(b"00", 0), None);
    assert_eq!(parse_octet(b"012", 0), None);
    assert_eq!(parse_octet(b"1234", 0), None);
    assert_eq!(parse_octet(b"12345", 0), None);
    assert_eq!(parse_octet(b"x1", 0), None);
}

#[test]
fn static_config_makes_device_its_own_gateway() {
    let gateway = address(192, 168, 2, 1);
    let config = static_config(gateway);
    assert_eq!(PREFIX_LEN, 24);
    assert_eq!(config.address, gateway);
    assert_eq!(config.prefix_len, 24);
    assert_eq!(config.gateway, Some(gateway));
    assert!(config.dns_servers.is_empty());
}

#[test]
fn stack_seed_concatenates_two_draws() {
    assert_eq!(stack_seed(0, 0), 0);
    assert_eq!(stack_seed(0, 1), 1);
    assert_eq!(stack_seed(1, 0), 0x1_0000_0000);
    assert_eq!(stack_seed(0x1234_5678, 0x9abc_def0), 0x1234_5678_9abc_def0);
    assert_eq!(stack_seed(u32::MAX, u32::MAX), u64::MAX);
    assert_eq!(stack_seed(1, 2), 4_294_967_298);
}

#[test]
fn plan_stack_with_default_gateway() {
    let plan = plan_stack(None, 0xdead_beef, 0x0bad_cafe).unwrap();
    assert_eq!(plan.gateway_text, "192.168.2.1");
    assert_eq!(plan.gateway, address(192, 168, 2, 1));
    assert_eq!(plan.config.address, address(192, 168, 2, 1));
    assert_eq!(plan.config.prefix_len, 24);
    assert_eq!(plan.config.gateway, Some(address(192, 168, 2, 1)));
    assert!(plan.config.dns_servers.is_empty());
    assert_eq!(plan.seed, 0xdead_beef_0bad_cafe);
    assert_eq!(plan.sockets, 3);
    assert_eq!(SOCKET_POOL_CAPACITY, 3);
}

#[test]
fn plan_stack_with_configured_gateway() {
    let plan = plan_stack(Some("10.1.2.3"), 1, 2).unwrap();
    assert_eq!(plan.gateway_text, "10.1.2.3");
    assert_eq!(plan.gateway, address(10, 1, 2, 3));
    assert_eq!(plan.config.gateway, Some(address(10, 1, 2, 3)));
    assert_eq!(plan.seed, 0x1_0000_0002);
}

#[test]
fn plan_stack_fails_on_malformed_gateway() {
    assert_eq!(plan_stack(Some("10.1.2"), 1, 2).err(), Some(GatewayError::Malformed));
    assert_eq!(plan_stack(Some("10.1.2.256"), 1, 2).err(), Some(GatewayError::Malformed));
}

#[test]
fn bringup_spawns_tasks_in_order() {
    let mut bringup = Bringup::new();
    assert_eq!(bringup.state(), BringupState::Spawning(Task::NetworkRunner));
    assert_eq!(bringup.command(), BringupCommand::Spawn(Task::NetworkRunner));
    bringup.advance(BringupEvent::Spawned);
    assert_eq!(bringup.command(), BringupCommand::Spawn(Task::ApSupervisor));
    bringup.advance(BringupEvent::Spawned);
    assert_eq!(bringup.command(), BringupCommand::Spawn(Task::LeaseService));
    bringup.advance(BringupEvent::Spawned);
    assert_eq!(bringup.state(), BringupState::PollingLink);
    assert_eq!(bringup.command(), BringupCommand::QueryLink);
    assert_eq!(bringup.failed_spawns(), 0);
}

#[test]
fn failed_spawn_is_counted_and_bringup_goes_on() {
    let mut bringup = Bringup::new();
    assert_eq!(bringup.advance(BringupEvent::SpawnFailed), Some(Failure::TaskSpawn));
    assert_eq!(bringup.failed_spawns(), 1);
    assert_eq!(bringup.command(), BringupCommand::Spawn(Task::ApSupervisor));
    assert_eq!(bringup.advance(BringupEvent::Spawned), None);
    assert_eq!(bringup.advance(BringupEvent::SpawnFailed), Some(Failure::TaskSpawn));
    assert_eq!(bringup.failed_spawns(), 2);
    assert_eq!(bringup.command(), BringupCommand::QueryLink);
    assert_eq!(bringup.advance(BringupEvent::SpawnFailed), None);
    assert_eq!(bringup.failed_spawns(), 2);
    assert_eq!(bringup.state(), BringupState::PollingLink);
}

#[test]
fn handler_runs_only_after_link_is_up() {
    let mut bringup = Bringup::new();
    let events = [
        BringupEvent::Spawned,
        BringupEvent::Spawned,
        BringupEvent::Spawned,
        BringupEvent::Link(false),
        BringupEvent::Elapsed,
        BringupEvent::Link(false),
        BringupEvent::Elapsed,
    ];
    for event in events {
        bringup.advance(event);
        assert_ne!(bringup.command(), BringupCommand::Serve);
    }
    assert_eq!(bringup.command(), BringupCommand::QueryLink);
    bringup.advance(BringupEvent::Link(true));
    assert_eq!(bringup.state(), BringupState::Serving);
    assert_eq!(bringup.command(), BringupCommand::Serve);
}

#[test]
fn link_is_polled_every_500_ms() {
    assert_eq!(LINK_POLL_INTERVAL_MS, 500);
    let mut bringup = Bringup::new();
    bringup.advance(BringupEvent::Spawned);
    bringup.advance(BringupEvent::Spawned);
    bringup.advance(BringupEvent::Spawned);
    bringup.advance(BringupEvent::Link(false));
    assert_eq!(bringup.state(), BringupState::WaitingForLink);
    assert_eq!(bringup.command(), BringupCommand::Sleep { delay_ms: 500 });
    bringup.advance(BringupEvent::Link(true));
    assert_eq!(bringup.state(), BringupState::WaitingForLink);
    bringup.advance(BringupEvent::Elapsed);
    assert_eq!(bringup.command(), BringupCommand::QueryLink);
}

#[test]
fn link_report_before_spawning_does_not_start_handler() {
    let mut bringup = Bringup::new();
    bringup.advance(BringupEvent::Link(true));
    assert_eq!(bringup.command(), BringupCommand::Spawn(Task::NetworkRunner));
    bringup.advance(BringupEvent::Elapsed);
    assert_eq!(bringup.command(), BringupCommand::Spawn(Task::NetworkRunner));
}

#[test]
fn serving_is_final() {
    let mut bringup = Bringup::new();
    for event in [
        BringupEvent::Spawned,
        BringupEvent::Spawned,
        BringupEvent::Spawned,
        BringupEvent::Link(true),
        BringupEvent::Link(false),
        BringupEvent::Elapsed,
        BringupEvent::SpawnFailed,
    ] {
        bringup.advance(event);
    }
    assert_eq!(bringup.command(), BringupCommand::Serve);
    assert_eq!(bringup.failed_spawns(), 0);
}
