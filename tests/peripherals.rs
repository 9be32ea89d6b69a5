use aquarium_monitor::adc::{
    conversion_result, conversion_running, initialize as adc_initialize, select_channel, start_conversion,
    ADCSRA, ADMUX,
};
use aquarium_monitor::registers::RegisterWrite;
use aquarium_monitor::uart::{initialize as uart_initialize, ready_to_send, Uart, UBRR0H, UBRR0L, UCSR0B, UCSR0C};

fn sent(u: &mut Uart) -> String {
    String::from_utf8(u.take_pending()).unwrap()
}

#[test]
fn adc_setup_writes() {
    assert_eq!(
        adc_initialize(),
        vec![
            RegisterWrite { address: ADMUX::ADDRESS, value: 0x40 },
            RegisterWrite { address: ADCSRA::ADDRESS, value: 0x87 },
        ]
    );
}

#[test]
fn adc_channel_and_result() {
    assert_eq!(select_channel(0x4F, 0), 0x40);
    assert_eq!(select_channel(0x40, 9), 0x41);
    assert_eq!(start_conversion(0x87), 0xC7);
    assert!(conversion_running(0xC7));
    assert!(!conversion_running(0x87));
    assert_eq!(conversion_result(0x34, 0x02), 0x234);
    assert_eq!(conversion_result(0xFF, 0x03), 1023);
}

#[test]
fn uart_setup_writes() {
    assert_eq!(
        uart_initialize(),
        vec![
            RegisterWrite { address: UBRR0H::ADDRESS, value: 0 },
            RegisterWrite { address: UBRR0L::ADDRESS, value: 103 },
            RegisterWrite { address: UCSR0B::ADDRESS, value: 0x08 },
            RegisterWrite { address: UCSR0C::ADDRESS, value: 0x06 },
        ]
    );
    assert!(ready_to_send(0x20));
    assert!(!ready_to_send(0xDF));
}

#[test]
fn uart_integers() {
    let mut u = Uart::new();
    u.send_integer(0, 10);
    assert_eq!(sent(&mut u), "0");
    u.send_integer(1234, 10);
    assert_eq!(sent(&mut u), "1234");
    u.send_integer(255, 16);
    assert_eq!(sent(&mut u), "FF");
    u.send_integer(5, 2);
    assert_eq!(sent(&mut u), "101");
    u.send_integer(65535, 36);
    assert_eq!(sent(&mut u), "1EKF");
    u.send_integer(65535, 2);
    assert_eq!(sent(&mut u), "1111111111111111");
}

#[test]
fn uart_decimals() {
    let mut u = Uart::new();
    u.send_decimal(1234, 2);
    assert_eq!(sent(&mut u), "12.34");
    u.send_decimal(5, 2);
    assert_eq!(sent(&mut u), "0.05");
    u.send_decimal(7, 0);
    assert_eq!(sent(&mut u), "7.");
    u.send_decimal(65535, 4);
    assert_eq!(sent(&mut u), "6.5535");
}

#[test]
fn uart_queue_keeps_order() {
    let mut u = Uart::new();
    u.send_string("pH ");
    u.send_decimal(700, 2);
    u.send_byte(b'\n');
    assert_eq!(sent(&mut u), "pH 7.00\n");
    assert!(u.take_pending().is_empty());
}
