use admin_panel::online_poller::{
    challenge_request, classify_stale_datagram, query_request, read_challenge_packet,
    read_online_packet, Challenge, FieldName, InnerError, StaleOutcome,
};

fn challenge_datagram(token: &str) -> Vec<u8> {
    let mut d = vec![0x09u8, 0, 0, 0, 1];
    d.extend_from_slice(token.as_bytes());
    d.push(0);
    d
}

#[test]
fn challenge_request_bytes() {
    assert_eq!(challenge_request(), vec![0xfe, 0xfd, 0x09, 0, 0, 0, 1]);
}

#[test]
fn query_request_bytes() {
    let c = Challenge { challenge: 0x01020304, session: 1 };
    assert_eq!(
        query_request(&c),
        vec![0xfe, 0xfd, 0x00, 0, 0, 0, 1, 1, 2, 3, 4]
    );
}

#[test]
fn challenge_parses_token_and_session() {
    let d = challenge_datagram("951307");
    let c = read_challenge_packet(&d).unwrap();
    assert_eq!(c.challenge, 951307);
    assert_eq!(c.session, 1);
}

#[test]
fn challenge_without_terminator_reads_to_the_end() {
    let d = vec![0x09u8, 0, 0, 0, 2, b'4', b'2'];
    let c = read_challenge_packet(&d).unwrap();
    assert_eq!(c.challenge, 42);
    assert_eq!(c.session, 2);
}

#[test]
fn empty_challenge_body_is_no_challenge() {
    // Nothing between the 5th byte and the first NUL.
    let d = vec![0x09u8, 0, 0, 0, 1, 0, b'9'];
    assert_eq!(read_challenge_packet(&d), Err(InnerError::NoChallenge));
    // Nothing after the header at all.
    let d = vec![0x09u8, 0, 0, 0, 1];
    assert_eq!(read_challenge_packet(&d), Err(InnerError::NoChallenge));
}

#[test]
fn challenge_with_wrong_type_is_rejected() {
    let d = vec![0x03u8, 0, 0, 0, 1, b'7', 0];
    assert_eq!(read_challenge_packet(&d), Err(InnerError::IncorrectType(9, 3)));
}

#[test]
fn empty_datagram_reads_as_type_zero() {
    let d: Vec<u8> = vec![];
    assert_eq!(read_challenge_packet(&d), Err(InnerError::IncorrectType(9, 0)));
}

#[test]
fn short_challenge_is_too_short() {
    let d = vec![0x09u8, 0, 0];
    assert_eq!(read_challenge_packet(&d), Err(InnerError::TooShort(3)));
}

#[test]
fn non_decimal_challenge_is_a_parse_error() {
    let d = challenge_datagram("12a4");
    assert_eq!(read_challenge_packet(&d), Err(InnerError::Parsing));
    let d = challenge_datagram("4294967296");
    assert_eq!(read_challenge_packet(&d), Err(InnerError::Parsing));
}

#[test]
fn challenge_at_u32_max_still_parses() {
    let d = challenge_datagram("4294967295");
    assert_eq!(read_challenge_packet(&d).unwrap().challenge, u32::MAX);
}

fn stat_datagram(fields: &[&str]) -> Vec<u8> {
    let mut d = vec![0x00u8, 0, 0, 0, 1];
    for f in fields {
        d.extend_from_slice(f.as_bytes());
        d.push(0);
    }
    d
}

#[test]
fn online_count_is_the_fourth_field() {
    let d = stat_datagram(&["A Minecraft Server", "SMP", "world", "5", "20"]);
    assert_eq!(read_online_packet(&d), Ok(5));
}

#[test]
fn missing_fourth_field_names_current_online() {
    let d = stat_datagram(&["A Minecraft Server", "SMP", "world"]);
    assert_eq!(
        read_online_packet(&d),
        Err(InnerError::NoField(FieldName::CurrentOnline))
    );
    let e = read_online_packet(&d).unwrap_err();
    assert_eq!(e.message(), "Packet doesn't have <Current online> field");
}

#[test]
fn unterminated_fourth_field_is_still_missing() {
    let mut d = stat_datagram(&["motd", "SMP", "world"]);
    d.extend_from_slice(b"17");
    assert_eq!(
        read_online_packet(&d),
        Err(InnerError::NoField(FieldName::CurrentOnline))
    );
}

#[test]
fn earlier_missing_fields_are_named_in_order() {
    assert_eq!(
        read_online_packet(&stat_datagram(&[])),
        Err(InnerError::NoField(FieldName::Motd))
    );
    assert_eq!(
        read_online_packet(&stat_datagram(&["m"])),
        Err(InnerError::NoField(FieldName::GameType))
    );
    assert_eq!(
        read_online_packet(&stat_datagram(&["m", "g"])),
        Err(InnerError::NoField(FieldName::WorldMap))
    );
}

#[test]
fn online_with_wrong_type_is_rejected() {
    let d = vec![0x09u8, 0, 0, 0, 1, b'm', 0];
    assert_eq!(read_online_packet(&d), Err(InnerError::IncorrectType(0, 9)));
}

#[test]
fn short_online_packet_is_too_short() {
    let d = vec![0x00u8, 0, 0];
    assert_eq!(read_online_packet(&d), Err(InnerError::TooShort(3)));
}

#[test]
fn non_decimal_online_count_is_a_parse_error() {
    let d = stat_datagram(&["m", "g", "w", "five"]);
    assert_eq!(read_online_packet(&d), Err(InnerError::Parsing));
    let d = stat_datagram(&["m", "g", "w", ""]);
    assert_eq!(read_online_packet(&d), Err(InnerError::Parsing));
}

#[test]
fn stale_status_reply_is_consumed_without_a_new_handshake() {
    // A late reply of the previous cycle: its count answers this cycle.
    let d = stat_datagram(&["m", "g", "w", "3", "20"]);
    assert_eq!(classify_stale_datagram(&d), Ok(StaleOutcome::Online(3)));
}

#[test]
fn stale_challenge_reply_becomes_this_cycles_challenge() {
    let d = challenge_datagram("777");
    assert_eq!(
        classify_stale_datagram(&d),
        Ok(StaleOutcome::UseChallenge(Challenge { challenge: 777, session: 1 }))
    );
}

#[test]
fn stale_datagram_of_unknown_type_is_rejected() {
    let d = vec![0x05u8, 0, 0, 0, 1];
    assert_eq!(classify_stale_datagram(&d), Err(InnerError::UnknownType(5)));
    let e = classify_stale_datagram(&d).unwrap_err();
    assert_eq!(e.message(), "Unknown response type: <5>");
}

#[test]
fn inner_error_messages_are_exact() {
    assert_eq!(InnerError::TooShort(3).message(), "Packet is too short: 3");
    assert_eq!(
        InnerError::IncorrectType(9, 0).message(),
        "Incorrect response type. Expected: <9>, received: <0>"
    );
    assert_eq!(
        InnerError::NoChallenge.message(),
        "Response doesn't have `challenge` field."
    );
    assert_eq!(InnerError::ReadTimeout.message(), "Read timeout");
    assert_eq!(
        InnerError::IO(String::from("oops")).message(),
        "Generic IO error: oops"
    );
}
