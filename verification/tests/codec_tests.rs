use tcp_engine::classify;
use tcp_engine::codec::{quad_of, Quad};
use tcp_engine::tcp::Connection;

/// Build one raw IPv4+TCP datagram with the codec the wrappers rely on.
fn build_datagram(protocol: u8, payload: &[u8]) -> Vec<u8> {
    let mut tcp = etherparse::TcpHeader::new(4000, 80, 1000, 64);
    tcp.syn = true;
    let ip = etherparse::Ipv4Header::new(
        tcp.header_len() + payload.len() as u16,
        64,
        protocol,
        [10, 0, 0, 1],
        [10, 0, 0, 2],
    );
    tcp.checksum = tcp.calc_checksum_ipv4(&ip, payload).unwrap();
    let mut buf = Vec::new();
    ip.write(&mut buf).unwrap();
    tcp.write(&mut buf).unwrap();
    buf.extend_from_slice(payload);
    buf
}

#[test]
fn classify_parses_a_tcp_datagram() {
    let buf = build_datagram(6, b"abc");
    let (iph, tcph, off) = classify(&buf).expect("well-formed TCP datagram");
    assert_eq!(iph.source, [10, 0, 0, 1]);
    assert_eq!(iph.destination, [10, 0, 0, 2]);
    assert_eq!(iph.protocol, 6);
    assert_eq!(iph.header_len, 20);
    assert_eq!(tcph.source_port, 4000);
    assert_eq!(tcph.destination_port, 80);
    assert_eq!(tcph.sequence_number, 1000);
    assert_eq!(tcph.window_size, 64);
    assert!(tcph.syn);
    assert!(!tcph.ack);
    assert!(!tcph.fin);
    assert!(!tcph.rst);
    assert_eq!(off, 40);
    assert_eq!(&buf[off..], b"abc");

    let quad = quad_of(&iph, &tcph);
    assert_eq!(quad, Quad { src: ([10, 0, 0, 1], 4000), dst: ([10, 0, 0, 2], 80) });
}

#[test]
fn classify_filters_non_tcp() {
    // same bytes, but the IPv4 header says UDP
    let buf = build_datagram(17, b"abc");
    assert!(classify(&buf).is_none());
}

#[test]
fn classify_rejects_malformed_datagrams() {
    let buf = build_datagram(6, b"abc");
    // truncated IPv4 header
    assert!(classify(&buf[..10]).is_none());
    // IPv4 header intact, TCP header truncated
    assert!(classify(&buf[..25]).is_none());
    assert!(classify(&[]).is_none());
    // wrong IP version nibble
    let mut bad = buf.clone();
    bad[0] = 0x65;
    assert!(classify(&bad).is_none());
}

#[test]
fn classify_reads_the_fixed_offsets() {
    // a minimal SYN datagram written out byte by byte
    let mut buf: Vec<u8> = vec![
        // IPv4: version 4, IHL 5, total length 40, TTL 64, protocol TCP,
        // checksum left zero (the parser does not validate it)
        0x45, 0x00, 0x00, 0x28, 0x00, 0x00, 0x40, 0x00, 0x40, 0x06, 0x00, 0x00,
        192, 168, 0, 1, // source address
        192, 168, 0, 2, // destination address
        // TCP: ports 8080 -> 80, sequence 1000, acknowledgment 0,
        // data offset 5, SYN, window 64, checksum zero, no urgent pointer
        0x1f, 0x90, 0x00, 0x50, 0x00, 0x00, 0x03, 0xe8, 0x00, 0x00, 0x00, 0x00, 0x50, 0x02, 0x00,
        0x40, 0x00, 0x00, 0x00, 0x00,
    ];
    let (iph, tcph, off) = classify(&buf).expect("hand-written datagram parses");
    assert_eq!(iph.source, [192, 168, 0, 1]);
    assert_eq!(iph.destination, [192, 168, 0, 2]);
    assert_eq!(iph.protocol, 6);
    assert_eq!(iph.header_len, 20);
    assert_eq!(tcph.source_port, 8080);
    assert_eq!(tcph.destination_port, 80);
    assert_eq!(tcph.sequence_number, 1000);
    assert_eq!(tcph.acknowledgment_number, 0);
    assert_eq!(tcph.window_size, 64);
    assert!(tcph.syn && !tcph.ack && !tcph.fin && !tcph.rst);
    assert_eq!(tcph.header_len, 20);
    assert_eq!(off, 40);

    // a total-length field smaller than the header makes the prefix malformed
    buf[2] = 0x00;
    buf[3] = 0x10;
    assert!(classify(&buf).is_none());
}

#[test]
fn emitted_reply_classifies_back() {
    let buf = build_datagram(6, &[]);
    let (iph, tcph, off) = classify(&buf).unwrap();
    let (_conn, reply) = Connection::accept(&iph, &tcph, &buf[off..]).unwrap();

    let (rip, rtcp, roff) = classify(&reply).expect("the engine's reply is a TCP datagram");
    // addressed back at the sender
    assert_eq!(rip.source, [10, 0, 0, 2]);
    assert_eq!(rip.destination, [10, 0, 0, 1]);
    assert_eq!(rtcp.source_port, 80);
    assert_eq!(rtcp.destination_port, 4000);
    assert!(rtcp.syn);
    assert!(rtcp.ack);
    assert_eq!(rtcp.acknowledgment_number, 1001);
    assert_eq!(rtcp.window_size, 10);
    assert_eq!(roff, reply.len());
}
