use havit_monitor::battery::{
    check_written, is_receiver, make_read_request, percentage_from_response, snapshot_at,
    tray_label, tray_tooltip, BatterySnapshot, BatteryStatus, ReadFailure,
};
use havit_monitor::battery::{millis_u64, now_ms};
use havit_monitor::battery_icon::make_battery_icon;

#[test]
fn packet_matches_the_validated_receiver_query() {
    let packet = make_read_request();
    assert_eq!(&packet[..8], &[0x04, 0x20, 0x00, 0x1A, 0x06, 0, 0, 0]);
    assert_eq!(packet[32], 0x02);
    assert_eq!(packet.len(), 64);
}

#[test]
fn request_is_zero_outside_its_fields() {
    let packet = make_read_request();
    for (i, byte) in packet.iter().enumerate() {
        if i >= 8 && i != 32 {
            assert_eq!(*byte, 0, "byte {i}");
        }
    }
    let checksum: u16 = packet[3..32].iter().map(|b| u16::from(*b)).sum();
    assert_eq!(u16::from(packet[1]) + (u16::from(packet[2]) << 8), checksum);
}

#[test]
fn only_the_receiver_collection_matches() {
    assert!(is_receiver(0x320F, 0x2261, 0xFF1C, 0x0092));
    assert!(!is_receiver(0x320F, 0x2261, 0xFF1C, 0x0091));
    assert!(!is_receiver(0x320F, 0x2262, 0xFF1C, 0x0092));
}

fn answer(percentage: u8) -> [u8; 64] {
    let mut response = [0u8; 64];
    response[0] = 0x04;
    response[3] = 0x1A;
    response[8] = percentage;
    response
}

fn protocol(result: Result<u8, ReadFailure>) -> String {
    match result {
        Err(ReadFailure::Protocol(details)) => details,
        other => panic!("expected a protocol failure, got {other:?}"),
    }
}

#[test]
fn reads_the_percentage_from_byte_eight() {
    assert_eq!(percentage_from_response(64, &answer(87)).unwrap(), 87);
    assert_eq!(percentage_from_response(64, &answer(100)).unwrap(), 100);
    assert_eq!(percentage_from_response(64, &answer(0)).unwrap(), 0);
}

#[test]
fn sorts_out_bad_answers() {
    assert!(matches!(percentage_from_response(0, &answer(50)), Err(ReadFailure::Sleeping)));
    assert_eq!(protocol(percentage_from_response(12, &answer(50))), "resposta com 12 bytes; esperados 64");
    let mut wrong_report = answer(50);
    wrong_report[0] = 0x0B;
    assert_eq!(protocol(percentage_from_response(64, &wrong_report)), "report ID inesperado: 0x0B");
    let mut asleep = answer(50);
    asleep[3] = 0xFE;
    assert!(matches!(percentage_from_response(64, &asleep), Err(ReadFailure::Sleeping)));
    let mut asleep = answer(50);
    asleep[7] = 0xFF;
    assert!(matches!(percentage_from_response(64, &asleep), Err(ReadFailure::Sleeping)));
    let mut other_command = answer(50);
    other_command[3] = 0x2C;
    assert_eq!(protocol(percentage_from_response(64, &other_command)), "comando inesperado na resposta: 0x2C");
    assert_eq!(protocol(percentage_from_response(64, &answer(101))), "porcentagem inválida: 101");
}

#[test]
fn short_write_is_a_protocol_failure() {
    assert!(check_written(64).is_ok());
    assert_eq!(protocol(check_written(10).map(|_| 0)), "envio incompleto: 10 de 64 bytes");
}

#[test]
fn initial_snapshot_waits_for_the_first_reading() {
    let first = BatterySnapshot::initial_at(5);
    assert_eq!(first.percentage, None);
    assert_eq!(first.last_known_percentage, None);
    assert_eq!(first.status, BatteryStatus::Sleeping);
    assert_eq!(first.message, "Aguardando a primeira leitura…");
    assert_eq!(first.updated_at, 5);
    assert_eq!(first.last_success_at, None);
    assert_eq!(tray_label(&first), "Bateria indisponível");
}

#[test]
fn keeps_the_last_reading_while_the_mouse_sleeps() {
    let start = BatterySnapshot::initial_at(1);
    let read = snapshot_at(&start, Ok(64), 10);
    assert_eq!(read.percentage, Some(64));
    assert_eq!(read.last_known_percentage, Some(64));
    assert_eq!(read.status, BatteryStatus::Available);
    assert_eq!(read.message, "Leitura recebida diretamente do receptor USB.");
    assert_eq!(read.last_success_at, Some(10));
    assert_eq!(tray_label(&read), "Bateria: 64%");

    let asleep = snapshot_at(&read, Err(ReadFailure::Sleeping), 20);
    assert_eq!(asleep.percentage, None);
    assert_eq!(asleep.last_known_percentage, Some(64));
    assert_eq!(asleep.status, BatteryStatus::Sleeping);
    assert_eq!(asleep.updated_at, 20);
    assert_eq!(asleep.last_success_at, Some(10));
    assert_eq!(tray_label(&asleep), "Mouse dormindo · última leitura: 64%");
    assert_eq!(tray_tooltip(&tray_label(&asleep)), "Havit MS966WB · Mouse dormindo · última leitura: 64%");
}

#[test]
fn failures_get_their_own_status_and_message() {
    let start = BatterySnapshot::initial_at(1);
    let missing = snapshot_at(&start, Err(ReadFailure::NotFound), 2);
    assert_eq!(missing.status, BatteryStatus::NotFound);
    assert_eq!(missing.message, "Receptor USB VID_320F/PID_2261 não encontrado.");
    assert_eq!(tray_label(&missing), "Receptor não encontrado");
    let busy = snapshot_at(&start, Err(ReadFailure::Busy), 2);
    assert_eq!(busy.status, BatteryStatus::Busy);
    assert_eq!(busy.message, "Interface HID ocupada. Feche o aplicativo oficial da Havit.");
    assert_eq!(tray_label(&busy), "Interface HID ocupada");
    let broken = snapshot_at(&start, Err(ReadFailure::Hid(String::from("device gone"))), 2);
    assert_eq!(broken.status, BatteryStatus::Error);
    assert_eq!(broken.message, "Falha ao consultar o receptor: device gone");
    assert_eq!(tray_label(&broken), "Erro ao ler a bateria");
    let garbled = snapshot_at(&start, Err(ReadFailure::Protocol(String::from("x"))), 2);
    assert_eq!(garbled.message, "Falha ao consultar o receptor: x");
}

fn pixel(rgba: &[u8], x: usize, y: usize) -> [u8; 4] {
    let i = (y * 32 + x) * 4;
    [rgba[i], rgba[i + 1], rgba[i + 2], rgba[i + 3]]
}

#[test]
fn battery_icon_draws_outline_cap_and_fill() {
    let rgba = make_battery_icon(Some(50), true);
    assert_eq!(rgba.len(), 32 * 32 * 4);
    assert_eq!(pixel(&rgba, 0, 0), [0, 0, 0, 0]);
    assert_eq!(pixel(&rgba, 3, 7), [220, 230, 236, 255]);
    assert_eq!(pixel(&rgba, 28, 15), [220, 230, 236, 255]);
    // 50% fills (50 * 16 + 99) / 100 = 8 columns, 7..15.
    assert_eq!(pixel(&rgba, 7, 11), [76, 224, 146, 255]);
    assert_eq!(pixel(&rgba, 14, 20), [76, 224, 146, 255]);
    assert_eq!(pixel(&rgba, 15, 15), [0, 0, 0, 0]);
}

#[test]
fn battery_icon_colours_follow_the_level() {
    assert_eq!(pixel(&make_battery_icon(Some(20), true), 7, 12), [238, 96, 96, 255]);
    assert_eq!(pixel(&make_battery_icon(Some(40), true), 7, 12), [236, 190, 75, 255]);
    assert_eq!(pixel(&make_battery_icon(Some(90), false), 7, 12), [112, 150, 132, 255]);
    let stale = make_battery_icon(Some(90), false);
    assert_eq!(pixel(&stale, 3, 7), [125, 135, 144, 255]);
    let empty = make_battery_icon(None, false);
    assert_eq!(pixel(&empty, 7, 12), [0, 0, 0, 0]);
    // A level of 0 rounds to no column at all.
    assert_eq!(pixel(&make_battery_icon(Some(0), true), 7, 12), [0, 0, 0, 0]);
}

#[test]
fn timestamps_keep_the_low_64_bits() {
    assert_eq!(millis_u64(None), 0);
    assert_eq!(millis_u64(Some(1_700_000_000_000)), 1_700_000_000_000);
    assert_eq!(millis_u64(Some((1u128 << 64) + 5)), 5);
    assert!(now_ms() > 1_600_000_000_000);
}
