use rndiag::checksum::internet_checksum;
use rndiag::flags::{decode_tcp_flags, flag_for_letter, flag_format, present_flags, TcpFlag};
use rndiag::packet::{build_packet, build_packet_v6, tcp_checksum, tcp_checksum_v6};

#[test]
fn decode_syn_ack() {
    assert_eq!(present_flags(0x12), vec![TcpFlag::Syn, TcpFlag::Ack]);
    assert_eq!(decode_tcp_flags(0x12), "SYN|ACK");
}

#[test]
fn decode_no_flags() {
    assert_eq!(present_flags(0x00), Vec::<TcpFlag>::new());
    assert_eq!(decode_tcp_flags(0x00), "NONE");
}

#[test]
fn decode_all_six_flags() {
    assert_eq!(decode_tcp_flags(0x3f), "FIN|SYN|RST|PSH|ACK|URG");
    assert_eq!(decode_tcp_flags(0xc0), "NONE");
    assert_eq!(decode_tcp_flags(0x04), "RST");
}

#[test]
fn flag_letters() {
    assert_eq!(flag_for_letter("S"), Some(0x02));
    assert_eq!(flag_for_letter("A"), Some(0x10));
    assert_eq!(flag_for_letter("F"), Some(0x01));
    assert_eq!(flag_for_letter("R"), Some(0x04));
    assert_eq!(flag_for_letter("P"), Some(0x08));
    assert_eq!(flag_for_letter("U"), Some(0x20));
    assert_eq!(flag_for_letter("s"), None);
    assert_eq!(flag_for_letter("SA"), None);
    assert_eq!(flag_for_letter(""), None);
}

#[test]
fn flag_format_takes_either_case() {
    assert_eq!(flag_format(&String::from("s")), Some(0x02));
    assert_eq!(flag_format(&String::from("S")), Some(0x02));
    assert_eq!(flag_format(&String::from("u")), Some(0x20));
    assert_eq!(flag_format(&String::from("x")), None);
    assert_eq!(flag_format(&String::from("none")), None);
}

#[test]
fn checksum_of_known_header() {
    let header: [u8; 20] = [
        0x45, 0x00, 0x00, 0x73, 0x00, 0x00, 0x40, 0x00, 0x40, 0x11, 0x00, 0x00, 0xc0, 0xa8, 0x00,
        0x01, 0xc0, 0xa8, 0x00, 0xc7,
    ];
    assert_eq!(internet_checksum(&header), 0xb861);
}

#[test]
fn checksum_of_odd_length() {
    assert_eq!(internet_checksum(&[0x01]), 0xfeff);
    assert_eq!(internet_checksum(&[0x00, 0x01, 0xf2]), 0x0dfe);
    assert_eq!(internet_checksum(&[]), 0xffff);
}

#[test]
fn checksum_written_back_checks_to_zero() {
    let mut data: Vec<u8> = vec![0x12, 0x34, 0x00, 0x00, 0xab, 0xcd, 0xef, 0x01, 0xff, 0xff];
    let sum = internet_checksum(&data);
    data[2] = (sum >> 8) as u8;
    data[3] = (sum & 0xff) as u8;
    assert_eq!(internet_checksum(&data), 0);
}

#[test]
fn ipv4_probe_bytes() {
    let mut buffer = [0u8; 40];
    build_packet(&mut buffer, [192, 168, 1, 10], [10, 0, 0, 1], 54321, 443, 0x02);
    assert_eq!(
        &buffer[..20],
        &[0x45, 0, 0, 40, 0, 0, 0, 0, 64, 6, 0xaf, 0x1d, 192, 168, 1, 10, 10, 0, 0, 1]
    );
    assert_eq!(&buffer[20..24], &[0xd4, 0x31, 0x01, 0xbb]);
    assert_eq!(&buffer[24..28], &[0, 0, 0x30, 0x39]);
    assert_eq!(&buffer[28..32], &[0, 0, 0, 0]);
    assert_eq!(&buffer[32..36], &[0x50, 0x02, 0xfa, 0xf0]);
    assert_eq!(&buffer[36..38], &[0xe3, 0x18]);
    assert_eq!(&buffer[38..40], &[0, 0]);
    assert_eq!(internet_checksum(&buffer[..20]), 0);
}

#[test]
fn ipv4_probe_tcp_checksum_checks_to_zero() {
    let mut buffer = [0xeeu8; 48];
    let src = [192, 168, 1, 10];
    let dst = [10, 0, 0, 1];
    build_packet(&mut buffer, src, dst, 54321, 80, 0x10);
    assert_eq!(tcp_checksum(src, dst, &buffer[20..40]), 0);
    assert_eq!(&buffer[40..], &[0xee; 8]);
    let mut zeroed = buffer;
    zeroed[36] = 0;
    zeroed[37] = 0;
    let sum = tcp_checksum(src, dst, &zeroed[20..40]);
    assert_eq!([(sum >> 8) as u8, (sum & 0xff) as u8], [buffer[36], buffer[37]]);
}

#[test]
fn ipv6_probe_bytes() {
    let mut buffer = [0u8; 60];
    let mut src = [0u8; 16];
    src[0] = 0xfe;
    src[1] = 0x80;
    src[15] = 1;
    let mut dst = [0u8; 16];
    dst[0] = 0x20;
    dst[1] = 0x01;
    dst[15] = 2;
    build_packet_v6(&mut buffer, src, dst, 54321, 443, 0x02);
    assert_eq!(&buffer[..8], &[0x60, 0, 0, 0, 0, 20, 6, 64]);
    assert_eq!(&buffer[8..24], &src);
    assert_eq!(&buffer[24..40], &dst);
    assert_eq!(&buffer[40..44], &[0xd4, 0x31, 0x01, 0xbb]);
    assert_eq!(buffer[53], 0x02);
    assert_eq!(tcp_checksum_v6(src, dst, &buffer[40..60]), 0);
}
