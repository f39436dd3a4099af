use roktrack::com::{mac_text, parse_report, report_text, take_line, BleBroadCast, Neighbor};
use roktrack::modes::Modes;

fn report() -> Vec<u8> {
    let mut b = vec![0u8; 30];
    b[0] = 4;
    b[1] = 62;
    for (i, v) in [1u8, 22, 3, 44, 5, 166].iter().enumerate() {
        b[7 + i] = *v;
    }
    b[20] = 255;
    b[21] = 255;
    // payload from byte 23: identifier, state+rest, temp, mode, msg, dest
    b[23] = 12;
    b[24] = 0b1110_0100;
    b[25] = 51;
    b[26] = 6;
    b[27] = 3;
    b[28] = 255;
    b[29] = 200;
    b
}

#[test]
fn payload_fields_are_read() {
    let n = Neighbor::from_manufacture_data_at(&[7, 0b1000_0011, 42, 1, 9, 255], String::from("5"));
    assert_eq!(n.identifier, 7);
    assert!(n.state);
    assert_eq!(n.rest, 3);
    assert_eq!(n.pi_temp, 42);
    assert_eq!(n.mode, Modes::OneWay);
    assert_eq!(n.msg, 9);
    assert_eq!(n.dest, 255);
    assert_eq!(n.timestamp, "5");
    let n = Neighbor::from_manufacture_data(&[0, 0x64, 0, 0, 0, 255]);
    assert!(!n.state);
    assert_eq!(n.rest, 100);
    assert!(!n.timestamp.is_empty());
}

#[test]
fn report_bytes_to_neighbor() {
    let n = BleBroadCast::bytes_to_neighbor(&report());
    assert_eq!(n.mac, "1:22:3:44:5:166");
    assert_eq!(n.rssi, 200);
    assert_eq!(n.manufacturer_id, 65535);
    assert_eq!(n.identifier, 12);
    assert!(n.state);
    assert_eq!(n.rest, 100);
    assert_eq!(n.mode, Modes::RoundTrip);
    assert_eq!(mac_text(&[]), "");
    assert_eq!(mac_text(&[0, 255]), "0:255");
}

#[test]
fn hex_report_is_parsed() {
    let text: String = report().iter().map(|b| format!("{:02x}", b)).collect();
    let n = parse_report(&text).unwrap();
    assert_eq!(n.identifier, 12);
    assert_eq!(n.rssi, 200);
    let upper = text.to_uppercase();
    assert_eq!(parse_report(&upper).unwrap().msg, 3);
    // odd length, bad digits, wrong event, too short
    assert!(parse_report(&text[1..]).is_none());
    assert!(parse_report(&format!("zz{}", &text[2..])).is_none());
    assert!(parse_report(&format!("05{}", &text[2..])).is_none());
    assert!(parse_report(&text[..50]).is_none());
}

#[test]
fn dump_lines_gather_reports() {
    let hex: Vec<String> = report().iter().map(|b| format!("{:02X}", b)).collect();
    let first = format!("> {}", hex[..20].join(" "));
    let second = format!("  {}", hex[20..].join(" "));
    let mut buf = String::new();
    // A line before any report is dropped.
    assert!(take_line(&mut buf, "HCI sniffer").is_none());
    assert_eq!(buf, "");
    // The first report line ends the (empty) report under way.
    assert!(take_line(&mut buf, &first).is_none());
    assert_eq!(buf, first);
    assert!(take_line(&mut buf, &second).is_none());
    // The next report line ends this one, which is read.
    let n = take_line(&mut buf, "> 04 0E").unwrap();
    assert_eq!(n.identifier, 12);
    assert_eq!(n.rssi, 200);
    assert_eq!(buf, "> 04 0E");
    assert_eq!(report_text("> 04 3E   0A"), "043E0A");
    assert_eq!(report_text(">> 1"), ">1");
}
