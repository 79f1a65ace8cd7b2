use http_queue::channel::{send_flags_word, Request, SendCall};
use http_queue::chunks::{build_data_chunks, DataChunk};
use http_queue::codes::{
    HEADER_CONTENT_LENGTH, HEADER_WWW_AUTHENTICATE, SEND_FLAG_DISCONNECT, SEND_FLAG_MORE_DATA,
    SEND_FLAG_OPAQUE,
};
use http_queue::headers::{
    build_push_headers, build_response, build_response_headers, push_query, HeaderEntry,
};
use http_queue::text::wide;

fn known(id: u16, value: &str) -> HeaderEntry {
    HeaderEntry::Known { id, value: value.as_bytes().to_vec() }
}

fn unknown(name: &str, value: &str) -> HeaderEntry {
    HeaderEntry::Unknown { name: name.as_bytes().to_vec(), value: value.as_bytes().to_vec() }
}

#[test]
fn single_known_header_lands_in_its_slot() {
    let b = build_response_headers(&vec![known(26, "srv")]).unwrap();
    assert_eq!(b.known[26], b"srv".to_vec());
    assert!(b.multiple.is_empty());
    assert!(b.unknown.is_empty());
}

#[test]
fn known_header_set_twice_becomes_multi_value_in_call_order() {
    let entries = vec![known(26, "first"), known(26, "second")];
    let b = build_response_headers(&entries).unwrap();
    assert!(b.known[26].is_empty());
    assert_eq!(b.multiple.len(), 1);
    assert_eq!(b.multiple[0].id, 26);
    assert!(!b.multiple[0].preserve_order);
    assert_eq!(
        b.multiple[0].values,
        vec![b"first".to_vec(), b"second".to_vec()]
    );
}

#[test]
fn www_authenticate_multi_value_preserves_order_on_the_wire() {
    let entries = vec![
        known(HEADER_WWW_AUTHENTICATE, "Negotiate"),
        known(HEADER_WWW_AUTHENTICATE, "NTLM"),
    ];
    let b = build_response_headers(&entries).unwrap();
    assert!(b.multiple[0].preserve_order);
}

#[test]
fn three_values_in_a_row_extend_the_same_multi_slot() {
    let entries = vec![known(27, "a=1"), known(27, "b=2"), known(27, "c=3")];
    let b = build_response_headers(&entries).unwrap();
    assert_eq!(b.multiple.len(), 1);
    assert_eq!(
        b.multiple[0].values,
        vec![b"a=1".to_vec(), b"b=2".to_vec(), b"c=3".to_vec()]
    );
}

#[test]
fn unknown_headers_pass_through_verbatim_in_order() {
    let entries = vec![unknown("X-First", "1"), known(26, "srv"), unknown("X-Second", "2")];
    let b = build_response_headers(&entries).unwrap();
    assert_eq!(
        b.unknown,
        vec![
            (b"X-First".to_vec(), b"1".to_vec()),
            (b"X-Second".to_vec(), b"2".to_vec()),
        ]
    );
}

#[test]
fn out_of_table_response_id_is_rejected() {
    assert!(build_response_headers(&vec![known(30, "nope")]).is_none());
    assert!(build_response_headers(&vec![known(29, "ok")]).is_some());
}

#[test]
fn send_scenario_resolves_with_code_zero() {
    // send(id, flags={opaque:false, more:false, disconnect:false},
    // status=200, version=1.1, reason="OK") with one known header
    // (Content-Length) and one unknown header (X-Test: 1).
    let chan = Request::new(0x33);
    let call = chan.send(5, false, false, false).unwrap();
    assert_eq!(call, SendCall { queue: 0x33, id: 5, flags: 0 });
    let entries = vec![known(HEADER_CONTENT_LENGTH, "5"), unknown("X-Test", "1")];
    let resp = build_response(200, 1, 1, &b"OK".to_vec(), &entries).unwrap();
    assert_eq!(resp.status, 200);
    assert_eq!((resp.major, resp.minor), (1, 1));
    assert_eq!(resp.reason, b"OK".to_vec());
    assert_eq!(resp.headers.known[HEADER_CONTENT_LENGTH as usize], b"5".to_vec());
    assert_eq!(
        resp.headers.unknown,
        vec![(b"X-Test".to_vec(), b"1".to_vec())]
    );
    let o = http_queue::outcome::resolve(http_queue::outcome::Arrival::Queried {
        ok: true,
        code: 0,
        bytes: 0,
    });
    let r = http_queue::channel::transfer_result(&o);
    assert_eq!(r.code, 0);
}

#[test]
fn send_flags_compose_independently() {
    assert_eq!(send_flags_word(false, false, false), 0);
    assert_eq!(send_flags_word(true, false, false), SEND_FLAG_OPAQUE);
    assert_eq!(send_flags_word(false, true, false), SEND_FLAG_MORE_DATA);
    assert_eq!(send_flags_word(false, false, true), SEND_FLAG_DISCONNECT);
    assert_eq!(
        send_flags_word(true, true, true),
        SEND_FLAG_OPAQUE | SEND_FLAG_MORE_DATA | SEND_FLAG_DISCONNECT
    );
}

#[test]
fn empty_buffers_are_skipped_in_data_chunks() {
    let buffers = vec![b"ab".to_vec(), Vec::new(), b"c".to_vec()];
    let chunks = build_data_chunks(&buffers, &Vec::new());
    assert_eq!(chunks.len(), 2);
    match &chunks[0] {
        DataChunk::Memory { data } => assert_eq!(*data, b"ab".to_vec()),
        _ => panic!("expected a memory chunk"),
    }
    match &chunks[1] {
        DataChunk::Memory { data } => assert_eq!(*data, b"c".to_vec()),
        _ => panic!("expected a memory chunk"),
    }
}

#[test]
fn trailers_become_one_final_chunk() {
    let buffers = vec![b"tail".to_vec()];
    let trailers = vec![(b"X-Sum".to_vec(), b"9".to_vec())];
    let chunks = build_data_chunks(&buffers, &trailers);
    assert_eq!(chunks.len(), 2);
    match &chunks[1] {
        DataChunk::Trailers { trailers } => {
            assert_eq!(*trailers, vec![(b"X-Sum".to_vec(), b"9".to_vec())]);
        }
        _ => panic!("expected a trailers chunk"),
    }
    let none = build_data_chunks(&buffers, &Vec::new());
    assert_eq!(none.len(), 1);
}

#[test]
fn push_known_slot_keeps_last_value() {
    let entries = vec![known(20, "text/html"), known(20, "text/plain")];
    let b = build_push_headers(&entries).unwrap();
    assert_eq!(b.known[20], b"text/plain".to_vec());
}

#[test]
fn push_accepts_request_table_ids_only() {
    assert!(build_push_headers(&vec![known(40, "x")]).is_some());
    assert!(build_push_headers(&vec![known(41, "x")]).is_none());
}

#[test]
fn push_unknown_headers_pass_through() {
    let entries = vec![unknown("X-A", "1"), unknown("X-B", "2")];
    let b = build_push_headers(&entries).unwrap();
    assert_eq!(
        b.unknown,
        vec![(b"X-A".to_vec(), b"1".to_vec()), (b"X-B".to_vec(), b"2".to_vec())]
    );
}

#[test]
fn push_query_skips_prefix_and_drops_empty() {
    assert_eq!(push_query(&b"?q=1".to_vec()), Some(b"q=1".to_vec()));
    assert_eq!(push_query(&b"?".to_vec()), None);
    assert_eq!(push_query(&Vec::new()), None);
    assert_eq!(push_query(&b"?\0".to_vec()), None);
}

#[test]
fn wide_encodes_ascii_with_nul_terminator() {
    assert_eq!(wide("ab"), vec![97, 98, 0]);
    assert_eq!(wide(""), vec![0]);
}

#[test]
fn wide_encodes_basic_plane_and_surrogate_pairs() {
    assert_eq!(wide("\u{20AC}"), vec![0x20AC, 0]);
    assert_eq!(wide("\u{1D11E}"), vec![0xD834, 0xDD1E, 0]);
}
