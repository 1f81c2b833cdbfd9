use pico::analog_out::{configuation, get_output, send_duty_cycles, DutyCycle, Output, PwmSettings};
use pico::network::{add_dhcp_server, gateway, NetworkSettings, StaticConfig};
use pico::outbound::Endpoint;

#[test]
fn pwm_configuration_for_100_hz() {
    assert_eq!(configuation(125_000_000, 100), PwmSettings { top: 12_588, divider: 16 });
    assert_eq!(configuation(125_000_000, 1_000), PwmSettings { top: 7_811, divider: 16 });
}

#[test]
fn pwm_period_wraps_to_sixteen_bits() {
    assert_eq!(configuation(16 * 65_537, 1), PwmSettings { top: 0, divider: 16 });
}

#[test]
fn duty_cycle_is_clamped_to_a_percentage() {
    let mut output = Output::new(6);
    assert_eq!(output, Output { pin: 6, duty_cycle: 0 });
    assert_eq!(output.set_duty_cycle(40), DutyCycle::Percent(40));
    assert_eq!(output.set_duty_cycle(180), DutyCycle::Percent(100));
    assert_eq!(output.duty_cycle, 100);
    assert_eq!(output.set_duty_cycle(0), DutyCycle::FullyOff);
    assert_eq!(output.pin, 6);
}

#[test]
fn outputs_are_found_by_pin_and_reported() {
    let pins = [(6u8, 'a'), (8, 'b'), (6, 'c')];
    assert_eq!(get_output(6, &pins), Some(0));
    assert_eq!(get_output(8, &pins), Some(1));
    assert_eq!(get_output(7, &pins), None);
    let mut outputs = vec![Output::new(6), Output::new(8)];
    outputs[1].set_duty_cycle(25);
    assert_eq!(send_duty_cycles(&outputs), vec![(6, 0), (8, 25)]);
    let many: Vec<Output> = (0..10).map(Output::new).collect();
    assert_eq!(send_duty_cycles(&many).len(), 8);
}

#[test]
fn network_settings_and_gateway() {
    let settings = NetworkSettings::new();
    assert_eq!(settings.address, [192, 168, 7, 1]);
    assert_eq!(settings.port, 1234);
    assert_eq!(settings.destination, Endpoint { address: [192, 168, 64, 47], port: 12345 });
    assert_eq!(gateway(settings.address), [192, 168, 7, 2]);
}

#[test]
fn dhcp_pool_is_in_the_pico_network() {
    let plan = add_dhcp_server(Some(StaticConfig {
        address: [192, 168, 7, 1],
        netmask: [255, 255, 255, 0],
        gateway: Some([192, 168, 7, 2]),
    }));
    assert_eq!(plan.server_ip, [192, 168, 7, 1]);
    assert_eq!(plan.subnet_mask, [255, 255, 255, 0]);
    assert_eq!(plan.router, [192, 168, 7, 2]);
    assert_eq!(plan.dns_servers, vec![[1, 1, 1, 1], [1, 0, 0, 1], [8, 8, 8, 8]]);
    assert_eq!(plan.pool_start, [192, 168, 7, 100]);
    assert_eq!(plan.pool_end, [192, 168, 7, 200]);
    assert_eq!(plan.lease_time_s, 7200);
    let fallback = add_dhcp_server(None);
    assert_eq!(fallback.server_ip, [0, 0, 0, 0]);
    assert_eq!(fallback.router, [0, 0, 0, 0]);
    assert_eq!(fallback.pool_start, [0, 0, 0, 100]);
    let no_gateway = add_dhcp_server(Some(StaticConfig { address: [10, 0, 0, 1], netmask: [255, 255, 255, 0], gateway: None }));
    assert_eq!(no_gateway.router, [0, 0, 0, 0]);
    assert_eq!(no_gateway.pool_end, [10, 0, 0, 200]);
}
