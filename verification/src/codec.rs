//! ANCS payload codec: pure functions building and parsing the wire-exact
//! byte layouts of the emulated Apple Notification Center Service — the
//! 8-byte Notification Source event and the Control Point request/response
//! TLV (type, length, value) streams.

use vstd::prelude::*;

use crate::bytes::append_bytes;

verus! {

// ---------------------------------------------------------------------------
// Canned attribute values
//
// The emulated server has no real notifications, so every attribute request
// is answered from a fixed phantom notification.
// ---------------------------------------------------------------------------
/// Canned app identifier, `com.astrobox.ghost` (attribute 0).
pub open spec fn canned_app_identifier() -> Seq<u8> {
    seq![
        0x63u8,
        0x6f,
        0x6d,
        0x2e,
        0x61,
        0x73,
        0x74,
        0x72,
        0x6f,
        0x62,
        0x6f,
        0x78,
        0x2e,
        0x67,
        0x68,
        0x6f,
        0x73,
        0x74,
    ]
}

/// Canned message title, `Phantom Alert` (attribute 1).
pub open spec fn canned_title() -> Seq<u8> {
    seq![0x50u8, 0x68, 0x61, 0x6e, 0x74, 0x6f, 0x6d, 0x20, 0x41, 0x6c, 0x65, 0x72, 0x74]
}

/// Canned message subtitle, `Faint Signal` (attribute 2).
pub open spec fn canned_subtitle() -> Seq<u8> {
    seq![0x46u8, 0x61, 0x69, 0x6e, 0x74, 0x20, 0x53, 0x69, 0x67, 0x6e, 0x61, 0x6c]
}

/// Canned message body, `Spectral notification with no real content.`
/// (attribute 3).
pub open spec fn canned_body() -> Seq<u8> {
    seq![
        0x53u8,
        0x70,
        0x65,
        0x63,
        0x74,
        0x72,
        0x61,
        0x6c,
        0x20,
        0x6e,
        0x6f,
        0x74,
        0x69,
        0x66,
        0x69,
        0x63,
        0x61,
        0x74,
        0x69,
        0x6f,
        0x6e,
        0x20,
        0x77,
        0x69,
        0x74,
        0x68,
        0x20,
        0x6e,
        0x6f,
        0x20,
        0x72,
        0x65,
        0x61,
        0x6c,
        0x20,
        0x63,
        0x6f,
        0x6e,
        0x74,
        0x65,
        0x6e,
        0x74,
        0x2e,
    ]
}

/// Canned notification date, `19700101T000000` (attribute 5).
pub open spec fn canned_date() -> Seq<u8> {
    seq![0x31u8, 0x39, 0x37, 0x30, 0x30, 0x31, 0x30, 0x31, 0x54, 0x30, 0x30, 0x30, 0x30, 0x30, 0x30]
}

/// Canned positive action label, `Open` (attribute 6).
pub open spec fn canned_positive_action() -> Seq<u8> {
    seq![0x4fu8, 0x70, 0x65, 0x6e]
}

/// Canned negative action label, `Ignore` (attribute 7).
pub open spec fn canned_negative_action() -> Seq<u8> {
    seq![0x49u8, 0x67, 0x6e, 0x6f, 0x72, 0x65]
}

/// Canned app display name, `AstroBox Phantom` (app attribute 0).
pub open spec fn canned_app_display_name() -> Seq<u8> {
    seq![
        0x41u8,
        0x73,
        0x74,
        0x72,
        0x6f,
        0x42,
        0x6f,
        0x78,
        0x20,
        0x50,
        0x68,
        0x61,
        0x6e,
        0x74,
        0x6f,
        0x6d,
    ]
}

/// The canned value answering a notification-attribute request.
pub open spec fn canned_notification_attribute(attr_id: u8) -> Seq<u8> {
    if attr_id == 0 {
        canned_app_identifier()
    } else if attr_id == 1 {
        canned_title()
    } else if attr_id == 2 {
        canned_subtitle()
    } else if attr_id == 3 {
        canned_body()
    } else if attr_id == 4 {
        seq![0x30u8]
    } else if attr_id == 5 {
        canned_date()
    } else if attr_id == 6 {
        canned_positive_action()
    } else if attr_id == 7 {
        canned_negative_action()
    } else {
        Seq::empty()
    }
}

/// The canned value answering an app-attribute request.
pub open spec fn canned_app_attribute(attr_id: u8) -> Seq<u8> {
    if attr_id == 0 {
        canned_app_display_name()
    } else {
        Seq::empty()
    }
}

/// Every canned notification attribute fits well under the 2-byte TLV
/// length field.
pub proof fn lemma_canned_notification_attribute_len(attr_id: u8)
    ensures
        canned_notification_attribute(attr_id).len() <= 43,
{
}

// ---------------------------------------------------------------------------
// Truncation
// ---------------------------------------------------------------------------
/// `data` cut to at most `max_len` bytes; a requested length of zero means
/// "whole value".
pub open spec fn truncated(data: Seq<u8>, max_len: nat) -> Seq<u8> {
    if max_len == 0 || data.len() <= max_len {
        data
    } else {
        data.subrange(0, max_len as int)
    }
}

/// Cuts `data` to at most `max_len` bytes, a zero `max_len` meaning no limit.
pub fn truncate_bytes(data: &[u8], max_len: usize) -> (out: Vec<u8>)
    ensures
        out@ == truncated(data@, max_len as nat),
{
    if max_len == 0 || data.len() <= max_len {
        vstd::slice::slice_to_vec(data)
    } else {
        vstd::slice::slice_to_vec(vstd::slice::slice_subrange(data, 0, max_len))
    }
}

// ---------------------------------------------------------------------------
// Notification Source payload
// ---------------------------------------------------------------------------
/// The four bytes of `x` in little-endian order.
pub open spec fn u32_le_bytes(x: u32) -> Seq<u8> {
    seq![
        (x % 256) as u8,
        ((x / 256) % 256) as u8,
        ((x / 65536) % 256) as u8,
        ((x / 16777216) % 256) as u8,
    ]
}

/// The 8-byte Notification Source event: EventID `Added`, EventFlags
/// `Silent`, CategoryID `Other`, CategoryCount 1, then the UID in
/// little-endian order.
pub open spec fn notification_source_payload(uid: u32) -> Seq<u8> {
    seq![0x00u8, 0x01, 0x00, 0x01] + u32_le_bytes(uid)
}

/// Builds the synthetic Notification-Added event carrying `uid`.
pub fn build_notification_source_payload(uid: u32) -> (payload: [u8; 8])
    ensures
        payload@ == notification_source_payload(uid),
{
    let b0 = (uid % 256) as u8;
    let b1 = ((uid / 256) % 256) as u8;
    let b2 = ((uid / 65536) % 256) as u8;
    let b3 = ((uid / 16777216) % 256) as u8;
    let payload: [u8; 8] = [0x00, 0x01, 0x00, 0x01, b0, b1, b2, b3];
    proof {
        assert(payload@ =~= notification_source_payload(uid));
    }
    payload
}

// ---------------------------------------------------------------------------
// TLV attribute entries
// ---------------------------------------------------------------------------
/// Whether a notification attribute request carries a 2-byte requested
/// length after the attribute ID (title, subtitle and body do).
pub open spec fn attr_needs_len(attr_id: u8) -> bool {
    attr_id == 1 || attr_id == 2 || attr_id == 3
}

/// Whether requests for `attr_id` carry a 2-byte requested-length field.
pub fn attribute_requires_len(attr_id: u8) -> (r: bool)
    ensures
        r == attr_needs_len(attr_id),
{
    attr_id == 1 || attr_id == 2 || attr_id == 3
}

/// One TLV record: attribute ID, 2-byte little-endian length, value.
pub open spec fn tlv_entry(attr_id: u8, value: Seq<u8>) -> Seq<u8>
    recommends
        value.len() < 65536,
{
    seq![attr_id, (value.len() % 256) as u8, ((value.len() / 256) % 256) as u8] + value
}

/// Appends one TLV record for `attr_id` with the given value to `buffer`.
pub fn append_app_attribute(buffer: &mut Vec<u8>, attr_id: u8, value: Vec<u8>)
    requires
        value@.len() <= 65535,
    ensures
        final(buffer)@ == old(buffer)@ + tlv_entry(attr_id, value@),
{
    buffer.push(attr_id);
    let vlen = value.len();
    buffer.push((vlen % 256) as u8);
    buffer.push(((vlen / 256) % 256) as u8);
    append_bytes(buffer, value.as_slice());
    proof {
        assert(buffer@ =~= old(buffer)@ + tlv_entry(attr_id, value@));
    }
}

/// Canned notification attribute value as a vector.
fn canned_notification_value(attr_id: u8) -> (v: Vec<u8>)
    ensures
        v@ == canned_notification_attribute(attr_id),
{
    let v: Vec<u8> = match attr_id {
        0 => {
            let a: [u8; 18] = [
                0x63,
                0x6f,
                0x6d,
                0x2e,
                0x61,
                0x73,
                0x74,
                0x72,
                0x6f,
                0x62,
                0x6f,
                0x78,
                0x2e,
                0x67,
                0x68,
                0x6f,
                0x73,
                0x74,
            ];
            vstd::slice::slice_to_vec(a.as_slice())
        },
        1 => {
            let a: [u8; 13] = [
                0x50,
                0x68,
                0x61,
                0x6e,
                0x74,
                0x6f,
                0x6d,
                0x20,
                0x41,
                0x6c,
                0x65,
                0x72,
                0x74,
            ];
            vstd::slice::slice_to_vec(a.as_slice())
        },
        2 => {
            let a: [u8; 12] = [0x46, 0x61, 0x69, 0x6e, 0x74, 0x20, 0x53, 0x69, 0x67, 0x6e, 0x61, 0x6c];
            vstd::slice::slice_to_vec(a.as_slice())
        },
        3 => {
            let a: [u8; 43] = [
                0x53,
                0x70,
                0x65,
                0x63,
                0x74,
                0x72,
                0x61,
                0x6c,
                0x20,
                0x6e,
                0x6f,
                0x74,
                0x69,
                0x66,
                0x69,
                0x63,
                0x61,
                0x74,
                0x69,
                0x6f,
                0x6e,
                0x20,
                0x77,
                0x69,
                0x74,
                0x68,
                0x20,
                0x6e,
                0x6f,
                0x20,
                0x72,
                0x65,
                0x61,
                0x6c,
                0x20,
                0x63,
                0x6f,
                0x6e,
                0x74,
                0x65,
                0x6e,
                0x74,
                0x2e,
            ];
            vstd::slice::slice_to_vec(a.as_slice())
        },
        4 => {
            let a: [u8; 1] = [0x30];
            vstd::slice::slice_to_vec(a.as_slice())
        },
        5 => {
            let a: [u8; 15] = [
                0x31,
                0x39,
                0x37,
                0x30,
                0x30,
                0x31,
                0x30,
                0x31,
                0x54,
                0x30,
                0x30,
                0x30,
                0x30,
                0x30,
                0x30,
            ];
            vstd::slice::slice_to_vec(a.as_slice())
        },
        6 => {
            let a: [u8; 4] = [0x4f, 0x70, 0x65, 0x6e];
            vstd::slice::slice_to_vec(a.as_slice())
        },
        7 => {
            let a: [u8; 6] = [0x49, 0x67, 0x6e, 0x6f, 0x72, 0x65];
            vstd::slice::slice_to_vec(a.as_slice())
        },
        _ => Vec::new(),
    };
    proof {
        assert(v@ =~= canned_notification_attribute(attr_id));
    }
    v
}

/// Canned app attribute value as a vector.
fn canned_app_value(attr_id: u8) -> (v: Vec<u8>)
    ensures
        v@ == canned_app_attribute(attr_id),
{
    let v: Vec<u8> = match attr_id {
        0 => {
            let a: [u8; 16] = [
                0x41,
                0x73,
                0x74,
                0x72,
                0x6f,
                0x42,
                0x6f,
                0x78,
                0x20,
                0x50,
                0x68,
                0x61,
                0x6e,
                0x74,
                0x6f,
                0x6d,
            ];
            vstd::slice::slice_to_vec(a.as_slice())
        },
        _ => Vec::new(),
    };
    proof {
        assert(v@ =~= canned_app_attribute(attr_id));
    }
    v
}

/// The canned notification attribute value cut to the requested length.
///
/// For the variable-length attributes (title, subtitle, body) requested
/// with a nonzero length, the returned value's length is the smaller of the
/// requested length and the canned value's length.
pub fn dummy_notification_attribute(attr_id: u8, requested_len: usize) -> (value: Vec<u8>)
    ensures
        value@ == truncated(canned_notification_attribute(attr_id), requested_len as nat),
        value@.len() <= 43,
        1 <= attr_id <= 3 && requested_len >= 1 ==> value@.len() == (if requested_len
            <= canned_notification_attribute(attr_id).len() {
            requested_len as nat
        } else {
            canned_notification_attribute(attr_id).len()
        }),
{
    let canned = canned_notification_value(attr_id);
    truncate_bytes(canned.as_slice(), requested_len)
}

/// The canned app attribute value cut to the requested length.
pub fn dummy_app_attribute(attr_id: u8, requested_len: usize) -> (value: Vec<u8>)
    ensures
        value@ == truncated(canned_app_attribute(attr_id), requested_len as nat),
        value@.len() <= 16,
{
    let canned = canned_app_value(attr_id);
    truncate_bytes(canned.as_slice(), requested_len)
}

// ---------------------------------------------------------------------------
// GetNotificationAttributes (command 0x00)
// ---------------------------------------------------------------------------
/// The TLV records answering the attribute list that starts at request
/// offset `o`: one record per attribute ID, stopping at the end of the
/// request or at a truncated requested-length field.
pub open spec fn notification_entries(req: Seq<u8>, o: int) -> Seq<u8>
    decreases req.len() - o,
{
    if o < 0 || o >= req.len() {
        Seq::empty()
    } else {
        let id = req[o];
        if attr_needs_len(id) {
            if o + 2 >= req.len() {
                Seq::empty()
            } else {
                let rlen = req[o + 1] + 256 * req[o + 2];
                tlv_entry(id, truncated(canned_notification_attribute(id), rlen as nat))
                    + notification_entries(req, o + 3)
            }
        } else {
            tlv_entry(id, canned_notification_attribute(id)) + notification_entries(req, o + 1)
        }
    }
}

/// The attribute IDs the builder walks for the list starting at offset `o`,
/// in request order.
pub open spec fn requested_notification_ids(req: Seq<u8>, o: int) -> Seq<u8>
    decreases req.len() - o,
{
    if o < 0 || o >= req.len() {
        Seq::empty()
    } else {
        let id = req[o];
        if attr_needs_len(id) {
            if o + 2 >= req.len() {
                Seq::empty()
            } else {
                seq![id] + requested_notification_ids(req, o + 3)
            }
        } else {
            seq![id] + requested_notification_ids(req, o + 1)
        }
    }
}

/// The 5-byte response header: the request's command byte and UID echoed
/// back, or five zero bytes for a short request.
pub open spec fn response_header(req: Seq<u8>) -> Seq<u8> {
    if req.len() >= 5 {
        req.subrange(0, 5)
    } else {
        seq![0x00u8, 0, 0, 0, 0]
    }
}

/// The whole GetNotificationAttributes response: echoed header, then the
/// requested TLV records, falling back to a single default record (attribute
/// 0, whole canned value) when the request names no attribute.
pub open spec fn notification_attributes_response(req: Seq<u8>) -> Seq<u8> {
    let entries = notification_entries(req, 5);
    response_header(req) + (if entries.len() == 0 {
        tlv_entry(0, canned_app_identifier())
    } else {
        entries
    })
}

/// Builds the GetNotificationAttributes response for a raw request.
///
/// The first five response bytes echo the first five request bytes whenever
/// the request has at least five, and the response always carries at least
/// one TLV record.
pub fn build_notification_attributes_response(request: &[u8]) -> (response: Vec<u8>)
    ensures
        response@ == notification_attributes_response(request@),
        request@.len() >= 5 ==> response@.subrange(0, 5) == request@.subrange(0, 5),
{
    let mut response: Vec<u8> = Vec::new();
    if request.len() >= 5 {
        append_bytes(&mut response, vstd::slice::slice_subrange(request, 0, 5));
    } else {
        response.push(0x00);
        response.push(0);
        response.push(0);
        response.push(0);
        response.push(0);
        proof {
            assert(response@ =~= response_header(request@));
        }
    }

    let req_len = request.len();
    let mut offset: usize = 5;
    let mut appended = false;
    while offset < req_len
        invariant
            req_len == request@.len(),
            5 <= offset,
            response@.len() >= 5,
            response@.subrange(0, 5) == response_header(request@),
            notification_entries(request@, 5) == response@.skip(5) + notification_entries(
                request@,
                offset as int,
            ),
            appended <==> response@.len() > 5,
        ensures
            response@.len() >= 5,
            response@.subrange(0, 5) == response_header(request@),
            response@.skip(5) == notification_entries(request@, 5),
            appended <==> response@.len() > 5,
        decreases req_len - offset,
    {
        let ghost pre = response@;
        let attr_id = request[offset];
        let requested_len: usize;
        let consumed: usize;
        if attribute_requires_len(attr_id) {
            if req_len - offset < 3 {
                proof {
                    assert(notification_entries(request@, offset as int) =~= Seq::<u8>::empty());
                    assert(pre.skip(5) + Seq::<u8>::empty() =~= pre.skip(5));
                }
                break ;
            }
            let lo = request[offset + 1];
            let hi = request[offset + 2];
            requested_len = (lo as usize) + 256 * (hi as usize);
            consumed = 3;
        } else {
            requested_len = 0;
            consumed = 1;
        }
        let value = dummy_notification_attribute(attr_id, requested_len);
        append_app_attribute(&mut response, attr_id, value);
        appended = true;
        offset = offset + consumed;
        proof {
            let o = (offset - consumed) as int;
            assert(response@.skip(5) =~= pre.skip(5) + tlv_entry(
                attr_id,
                truncated(canned_notification_attribute(attr_id), requested_len as nat),
            ));
            assert(notification_entries(request@, o) == tlv_entry(
                attr_id,
                truncated(canned_notification_attribute(attr_id), requested_len as nat),
            ) + notification_entries(request@, offset as int));
            assert(notification_entries(request@, 5) =~= response@.skip(5) + notification_entries(
                request@,
                offset as int,
            ));
            assert(response@.subrange(0, 5) =~= pre.subrange(0, 5));
        }
    }

    if !appended {
        let value = dummy_notification_attribute(0, 0);
        let ghost pre = response@;
        append_app_attribute(&mut response, 0, value);
        proof {
            assert(pre =~= response_header(request@));
            assert(response@ =~= notification_attributes_response(request@));
        }
    } else {
        proof {
            assert(response@ =~= response@.subrange(0, 5) + response@.skip(5));
            assert(response@ =~= notification_attributes_response(request@));
        }
    }
    proof {
        if request@.len() >= 5 {
            assert(response@.subrange(0, 5) =~= request@.subrange(0, 5));
        }
    }
    response
}

// ---------------------------------------------------------------------------
// GetAppAttributes (command 0x01)
// ---------------------------------------------------------------------------
/// The index of the first NUL byte of `req` at or after `i`, or the request
/// length when none follows.
pub open spec fn app_id_end(req: Seq<u8>, i: int) -> int
    decreases req.len() - i,
{
    if i < 0 || i >= req.len() {
        req.len() as int
    } else if req[i] == 0 {
        i
    } else {
        app_id_end(req, i + 1)
    }
}

/// The app identifier argument (the bytes between the command byte and its
/// NUL terminator) and the offset of the first byte after the terminator.
pub open spec fn spec_app_identifier(req: Seq<u8>) -> (Seq<u8>, int) {
    if req.len() <= 1 {
        (Seq::empty(), req.len() as int)
    } else {
        let e = app_id_end(req, 1);
        (req.subrange(1, e), if e < req.len() { e + 1 } else { req.len() as int })
    }
}

proof fn lemma_app_id_end(req: Seq<u8>, i: int, e: int)
    requires
        0 <= i <= e <= req.len(),
        forall|k: int| i <= k < e ==> req[k] != 0,
        e < req.len() ==> req[e] == 0,
    ensures
        app_id_end(req, i) == e,
    decreases e - i,
{
    if i < e {
        lemma_app_id_end(req, i + 1, e);
    }
}

/// Splits the app identifier argument off a GetAppAttributes request,
/// returning it with the offset of the attribute list that follows it.
pub fn extract_app_identifier<'a>(request: &'a [u8]) -> (r: (&'a [u8], usize))
    ensures
        r.0@ == spec_app_identifier(request@).0,
        r.1 == spec_app_identifier(request@).1,
        r.1 <= request@.len(),
{
    let req_len = request.len();
    if req_len <= 1 {
        return (vstd::slice::slice_subrange(request, 0, 0), req_len);
    }
    let mut idx: usize = 1;
    while idx < req_len && request[idx] != 0
        invariant
            req_len == request@.len(),
            1 <= idx <= req_len,
            forall|k: int| 1 <= k < idx ==> request@[k] != 0,
        decreases req_len - idx,
    {
        idx = idx + 1;
    }
    proof {
        lemma_app_id_end(request@, 1, idx as int);
    }
    let app_id = vstd::slice::slice_subrange(request, 1, idx);
    let cursor = if idx < req_len {
        idx + 1
    } else {
        req_len
    };
    (app_id, cursor)
}

/// The TLV records answering the app-attribute list that starts at request
/// offset `o`: every entry carries a 2-byte requested length; the walk stops
/// at the end of the request or at a truncated entry.
pub open spec fn app_entries(req: Seq<u8>, o: int) -> Seq<u8>
    decreases req.len() - o,
{
    if o < 0 || o >= req.len() || o + 2 >= req.len() {
        Seq::empty()
    } else {
        let id = req[o];
        let rlen = req[o + 1] + 256 * req[o + 2];
        tlv_entry(id, truncated(canned_app_attribute(id), rlen as nat)) + app_entries(req, o + 3)
    }
}

/// The whole GetAppAttributes response: command byte, echoed app identifier
/// with its NUL terminator, then the requested TLV records, falling back to
/// one default record (app attribute 0, whole display name) when the request
/// names no attribute.
pub open spec fn app_attributes_response(req: Seq<u8>) -> Seq<u8> {
    let pair = spec_app_identifier(req);
    let head = seq![0x01u8] + pair.0 + seq![0u8];
    let entries = app_entries(req, pair.1);
    head + (if entries.len() == 0 {
        tlv_entry(0, canned_app_display_name())
    } else {
        entries
    })
}

/// Builds the GetAppAttributes response for a raw request.
pub fn build_app_attributes_response(request: &[u8]) -> (response: Vec<u8>)
    ensures
        response@ == app_attributes_response(request@),
{
    let mut response: Vec<u8> = Vec::new();
    response.push(0x01);
    let (app_id, start) = extract_app_identifier(request);
    append_bytes(&mut response, app_id);
    response.push(0);
    proof {
        assert(response@ =~= seq![0x01u8] + spec_app_identifier(request@).0 + seq![0u8]);
    }
    let ghost head = response@;
    let head_len = response.len();

    let req_len = request.len();
    let mut cursor: usize = start;
    while cursor < req_len
        invariant
            req_len == request@.len(),
            head_len == head.len(),
            head == seq![0x01u8] + spec_app_identifier(request@).0 + seq![0u8],
            response@.len() >= head.len(),
            response@.subrange(0, head_len as int) == head,
            app_entries(request@, start as int) == response@.skip(head_len as int) + app_entries(
                request@,
                cursor as int,
            ),
        ensures
            response@.len() >= head.len(),
            response@.subrange(0, head_len as int) == head,
            response@.skip(head_len as int) == app_entries(request@, start as int),
        decreases req_len - cursor,
    {
        let ghost pre = response@;
        let attr_id = request[cursor];
        if req_len - cursor < 3 {
            proof {
                assert(app_entries(request@, cursor as int) =~= Seq::<u8>::empty());
                assert(pre.skip(head_len as int) + Seq::<u8>::empty() =~= pre.skip(
                    head_len as int,
                ));
            }
            break ;
        }
        let lo = request[cursor + 1];
        let hi = request[cursor + 2];
        let requested_len: usize = (lo as usize) + 256 * (hi as usize);
        let value = dummy_app_attribute(attr_id, requested_len);
        append_app_attribute(&mut response, attr_id, value);
        let ghost o = cursor as int;
        cursor = cursor + 3;
        proof {
            assert(response@.skip(head_len as int) =~= pre.skip(head_len as int) + tlv_entry(
                attr_id,
                truncated(canned_app_attribute(attr_id), requested_len as nat),
            ));
            assert(app_entries(request@, o) == tlv_entry(
                attr_id,
                truncated(canned_app_attribute(attr_id), requested_len as nat),
            ) + app_entries(request@, cursor as int));
            assert(app_entries(request@, start as int) =~= response@.skip(head_len as int)
                + app_entries(request@, cursor as int));
            assert(response@.subrange(0, head_len as int) =~= pre.subrange(0, head_len as int));
        }
    }

    if response.len() == head_len {
        let value = dummy_app_attribute(0, 0);
        let ghost pre = response@;
        append_app_attribute(&mut response, 0, value);
        proof {
            assert(pre =~= head);
            assert(app_entries(request@, start as int) =~= Seq::<u8>::empty());
            assert(response@ =~= app_attributes_response(request@));
        }
    } else {
        proof {
            assert(response@ =~= response@.subrange(0, head_len as int) + response@.skip(
                head_len as int,
            ));
            assert(app_entries(request@, start as int).len() != 0);
            assert(response@ =~= app_attributes_response(request@));
        }
    }
    response
}

// ---------------------------------------------------------------------------
// PerformNotificationAction (command 0x02) and unknown commands
// ---------------------------------------------------------------------------
/// The PerformNotificationAction acknowledgement: command byte, the
/// notification UID echoed from the request (zeros for a short request),
/// then the action ID byte (zero when absent).
pub open spec fn action_ack_response(req: Seq<u8>) -> Seq<u8> {
    seq![0x02u8] + (if req.len() >= 5 {
        req.subrange(1, 5)
    } else {
        seq![0u8, 0, 0, 0]
    }) + seq![if req.len() > 5 {
        req[5]
    } else {
        0u8
    }]
}

/// Builds the PerformNotificationAction acknowledgement for a raw request.
pub fn build_action_ack_response(request: &[u8]) -> (response: Vec<u8>)
    ensures
        response@ == action_ack_response(request@),
{
    let mut response: Vec<u8> = Vec::new();
    response.push(0x02);
    if request.len() >= 5 {
        append_bytes(&mut response, vstd::slice::slice_subrange(request, 1, 5));
    } else {
        response.push(0);
        response.push(0);
        response.push(0);
        response.push(0);
    }
    if request.len() > 5 {
        response.push(request[5]);
    } else {
        response.push(0);
    }
    proof {
        assert(response@ =~= action_ack_response(request@));
    }
    response
}

// ---------------------------------------------------------------------------
// Control Point dispatch
// ---------------------------------------------------------------------------
/// The Data Source payload answering a Control Point write: `None` for an
/// empty request, the command-specific response otherwise; an unknown
/// command is echoed back with a single zero status byte.
pub open spec fn control_point_response(req: Seq<u8>) -> Option<Seq<u8>> {
    if req.len() == 0 {
        None
    } else if req[0] == 0x00 {
        Some(notification_attributes_response(req))
    } else if req[0] == 0x01 {
        Some(app_attributes_response(req))
    } else if req[0] == 0x02 {
        Some(action_ack_response(req))
    } else {
        Some(seq![req[0], 0x00u8])
    }
}

/// Dispatches a Control Point request to its response builder.
pub fn build_control_point_response(request: &[u8]) -> (response: Option<Vec<u8>>)
    ensures
        match response {
            Some(r) => control_point_response(request@) == Some(r@),
            None => control_point_response(request@) is None,
        },
{
    if request.len() == 0 {
        return None;
    }
    let command = request[0];
    match command {
        0x00 => Some(build_notification_attributes_response(request)),
        0x01 => Some(build_app_attributes_response(request)),
        0x02 => Some(build_action_ack_response(request)),
        _ => {
            let mut response: Vec<u8> = Vec::new();
            response.push(command);
            response.push(0x00);
            proof {
                assert(response@ =~= seq![command, 0x00u8]);
            }
            Some(response)
        },
    }
}

// ---------------------------------------------------------------------------
// TLV parsing and the round trip
// ---------------------------------------------------------------------------
/// The attribute IDs of a well-formed TLV stream, in stream order; parsing
/// stops at a truncated record.
pub open spec fn tlv_ids(data: Seq<u8>) -> Seq<u8>
    decreases data.len(),
{
    if data.len() < 3 {
        Seq::empty()
    } else {
        let vlen = data[1] + 256 * data[2];
        if data.len() < 3 + vlen {
            Seq::empty()
        } else {
            seq![data[0]] + tlv_ids(data.skip(3 + vlen))
        }
    }
}

/// Parses a TLV stream and returns its attribute IDs in stream order.
pub fn parse_attribute_ids(data: &[u8]) -> (ids: Vec<u8>)
    ensures
        ids@ == tlv_ids(data@),
{
    let mut ids: Vec<u8> = Vec::new();
    let data_len = data.len();
    let mut pos: usize = 0;
    proof {
        assert(data@.skip(0) =~= data@);
        assert(Seq::<u8>::empty() + tlv_ids(data@) =~= tlv_ids(data@));
    }
    while pos < data_len
        invariant
            data_len == data@.len(),
            pos <= data_len,
            tlv_ids(data@) == ids@ + tlv_ids(data@.skip(pos as int)),
        ensures
            tlv_ids(data@) == ids@ + tlv_ids(data@.skip(pos as int)),
            tlv_ids(data@.skip(pos as int)) == Seq::<u8>::empty(),
        decreases data_len - pos,
    {
        let ghost rest = data@.skip(pos as int);
        if data_len - pos < 3 {
            proof {
                assert(rest.len() < 3);
            }
            break ;
        }
        let vlen: usize = (data[pos + 1] as usize) + 256 * (data[pos + 2] as usize);
        proof {
            assert(rest[1] == data@[pos + 1] && rest[2] == data@[pos + 2]);
        }
        if data_len - pos - 3 < vlen {
            proof {
                assert(rest.len() < 3 + (rest[1] + 256 * rest[2]));
            }
            break ;
        }
        ids.push(data[pos]);
        pos = pos + 3 + vlen;
        proof {
            assert(rest[0] == data@[pos - 3 - vlen]);
            assert(rest.skip(3 + vlen as int) =~= data@.skip(pos as int));
            assert(tlv_ids(rest) == seq![rest[0]] + tlv_ids(data@.skip(pos as int)));
            assert(ids@ + tlv_ids(data@.skip(pos as int)) =~= ids@.drop_last() + (seq![rest[0]]
                + tlv_ids(data@.skip(pos as int))));
        }
    }
    proof {
        if pos == data_len {
            assert(data@.skip(pos as int).len() == 0);
        }
        assert(ids@ + Seq::<u8>::empty() =~= ids@);
    }
    ids
}

/// Parsing the TLV records built for the attribute list at offset `o` gives
/// back exactly the attribute IDs the builder walked, in the same order.
proof fn lemma_notification_entries_parse(req: Seq<u8>, o: int)
    ensures
        tlv_ids(notification_entries(req, o)) == requested_notification_ids(req, o),
        notification_entries(req, o).len() == 0 <==> requested_notification_ids(req, o).len() == 0,
    decreases req.len() - o,
{
    if o < 0 || o >= req.len() {
    } else {
        let id = req[o];
        let next = if attr_needs_len(id) {
            o + 3
        } else {
            o + 1
        };
        if attr_needs_len(id) && o + 2 >= req.len() {
        } else {
            let rlen: nat = if attr_needs_len(id) {
                (req[o + 1] + 256 * req[o + 2]) as nat
            } else {
                0
            };
            let v = truncated(canned_notification_attribute(id), rlen);
            let rest = notification_entries(req, next);
            lemma_notification_entries_parse(req, next);
            lemma_canned_notification_attribute_len(id);
            assert(v.len() <= 43);
            let data = tlv_entry(id, v) + rest;
            assert(notification_entries(req, o) == data);
            assert(data.len() >= 3);
            assert(data[1] == (v.len() % 256) as u8 && data[2] == ((v.len() / 256) % 256) as u8);
            assert(data[1] + 256 * data[2] == v.len());
            assert(data.skip(3 + v.len() as int) =~= rest);
            assert(tlv_ids(data) == seq![id] + tlv_ids(rest));
            assert(requested_notification_ids(req, o) == seq![id] + requested_notification_ids(
                req,
                next,
            ));
        }
    }
}

/// Every canned app attribute fits well under the 2-byte TLV length field.
pub proof fn lemma_canned_app_attribute_len(attr_id: u8)
    ensures
        canned_app_attribute(attr_id).len() <= 16,
{
}

/// The attribute IDs the app-attribute builder walks for the list starting
/// at offset `o`, in request order.
pub open spec fn requested_app_ids(req: Seq<u8>, o: int) -> Seq<u8>
    decreases req.len() - o,
{
    if o < 0 || o >= req.len() || o + 2 >= req.len() {
        Seq::empty()
    } else {
        seq![req[o]] + requested_app_ids(req, o + 3)
    }
}

/// Parsing the TLV records built for the app-attribute list at offset `o`
/// gives back exactly the attribute IDs the builder walked, in order.
proof fn lemma_app_entries_parse(req: Seq<u8>, o: int)
    ensures
        tlv_ids(app_entries(req, o)) == requested_app_ids(req, o),
        app_entries(req, o).len() == 0 <==> requested_app_ids(req, o).len() == 0,
    decreases req.len() - o,
{
    if o < 0 || o >= req.len() || o + 2 >= req.len() {
    } else {
        let id = req[o];
        let rlen: nat = (req[o + 1] + 256 * req[o + 2]) as nat;
        let v = truncated(canned_app_attribute(id), rlen);
        let rest = app_entries(req, o + 3);
        lemma_app_entries_parse(req, o + 3);
        lemma_canned_app_attribute_len(id);
        assert(v.len() <= 16);
        let data = tlv_entry(id, v) + rest;
        assert(app_entries(req, o) == data);
        assert(data.len() >= 3);
        assert(data[1] == (v.len() % 256) as u8 && data[2] == ((v.len() / 256) % 256) as u8);
        assert(data[1] + 256 * data[2] == v.len());
        assert(data.skip(3 + v.len() as int) =~= rest);
        assert(tlv_ids(data) == seq![id] + tlv_ids(rest));
    }
}

/// Round trip for GetAppAttributes (and the never-empty fallback): after the
/// echoed identifier section, parsing the built response yields the
/// requested attribute IDs in request order, and a request that names no
/// attribute still parses to exactly one record, the default app attribute
/// 0.
pub proof fn lemma_app_response_round_trip(req: Seq<u8>)
    ensures
        ({
            let head_len = 1 + spec_app_identifier(req).0.len() + 1;
            let start = spec_app_identifier(req).1;
            &&& tlv_ids(app_attributes_response(req).skip(head_len as int)) == (
            if requested_app_ids(req, start).len() == 0 {
                seq![0u8]
            } else {
                requested_app_ids(req, start)
            })
            &&& tlv_ids(app_attributes_response(req).skip(head_len as int)).len() >= 1
        }),
{
    let pair = spec_app_identifier(req);
    let head = seq![0x01u8] + pair.0 + seq![0u8];
    let entries = app_entries(req, pair.1);
    assert(head.len() == 1 + pair.0.len() + 1);
    lemma_app_entries_parse(req, pair.1);
    if entries.len() == 0 {
        let data = tlv_entry(0, canned_app_display_name());
        assert(app_attributes_response(req).skip(head.len() as int) =~= data);
        assert(data.len() == 19);
        assert(data[1] == 16 && data[2] == 0);
        assert(data.skip(19) =~= Seq::<u8>::empty());
        assert(tlv_ids(data) =~= seq![0u8]);
    } else {
        assert(app_attributes_response(req).skip(head.len() as int) =~= entries);
        assert(requested_app_ids(req, pair.1).len() >= 1);
        assert(tlv_ids(entries).len() >= 1) by {
            assert(tlv_ids(entries) == requested_app_ids(req, pair.1));
        }
    }
}

/// Round trip for GetNotificationAttributes (and the never-empty fallback):
/// parsing the TLV section of the built response yields the requested
/// attribute IDs in request order, and a request that names no attribute
/// still parses to exactly one record, the default attribute 0.
pub proof fn lemma_notification_response_round_trip(req: Seq<u8>)
    ensures
        tlv_ids(notification_attributes_response(req).skip(5)) == (
        if requested_notification_ids(req, 5).len() == 0 {
            seq![0u8]
        } else {
            requested_notification_ids(req, 5)
        }),
        tlv_ids(notification_attributes_response(req).skip(5)).len() >= 1,
{
    let entries = notification_entries(req, 5);
    let header = response_header(req);
    assert(header.len() == 5);
    lemma_notification_entries_parse(req, 5);
    if entries.len() == 0 {
        let data = tlv_entry(0, canned_app_identifier());
        assert(notification_attributes_response(req).skip(5) =~= data);
        assert(data.len() == 21);
        assert(data[1] == 18 && data[2] == 0);
        assert(data.skip(21) =~= Seq::<u8>::empty());
        assert(tlv_ids(data) =~= seq![0u8]);
    } else {
        assert(notification_attributes_response(req).skip(5) =~= entries);
        assert(requested_notification_ids(req, 5).len() >= 1);
        assert(tlv_ids(entries).len() >= 1) by {
            assert(tlv_ids(entries) == requested_notification_ids(req, 5));
        }
    }
}

} // verus!
