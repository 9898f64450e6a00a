//! Characteristic resolution: mapping a discovered service's characteristic
//! list to the three functional roles of the wearable protocol — flag
//! (0x0050, readable), receive (0x005E, notify) and send (0x005F, write).
//!
//! A first pass takes exact 16-bit UUID matches; if any role is still open, a
//! second pass matches a role-specific lowercase hex fragment against the
//! characteristic's textual UUID representation. Exact matches are
//! authoritative; the fragment fallback is best-effort and first-match-wins.

use vstd::prelude::*;

use crate::bytes::{contains_bytes, contains_seq, lower_ascii, lower_seq, strip_dashes,
    strip_dashes_seq};
use crate::error::BridgeError;

verus! {

/// The three functional roles a characteristic can fill.
#[derive(Clone, Copy, Debug, PartialEq, Eq)]
pub enum Role {
    /// The readable service-flag characteristic (0x0050).
    Flag,
    /// The notifying inbound characteristic (0x005E).
    Receive,
    /// The writable outbound characteristic (0x005F).
    Send,
}

/// What the resolver reads of a discovered characteristic: its identity as
/// the stack reports it and its capability flags.
///
/// `uuid16` is the plain 16-bit UUID when the stack reports one; `uuid_text`
/// is the UUID's textual form (any representation; dashes and ASCII case are
/// normalized away before fragment matching).
pub struct GattCharacteristic {
    pub uuid16: Option<u16>,
    pub uuid_text: Vec<u8>,
    pub can_read: bool,
    pub can_write: bool,
    pub can_write_no_response: bool,
    pub can_notify: bool,
}

/// The characteristic index chosen for each role.
#[derive(Clone, Copy, Debug, PartialEq, Eq)]
pub struct ResolvedRoles {
    pub flag: usize,
    pub receive: usize,
    pub send: usize,
}

/// The exact 16-bit UUID of a role.
pub open spec fn role_uuid16(role: Role) -> u16 {
    match role {
        Role::Flag => 0x0050,
        Role::Receive => 0x005E,
        Role::Send => 0x005F,
    }
}

/// The lowercase hex fragment matched against nonstandard UUID encodings:
/// `0050`, `005e` or `005f`.
pub open spec fn role_fragment(role: Role) -> Seq<u8> {
    match role {
        Role::Flag => seq![0x30u8, 0x30, 0x35, 0x30],
        Role::Receive => seq![0x30u8, 0x30, 0x35, 0x65],
        Role::Send => seq![0x30u8, 0x30, 0x35, 0x66],
    }
}

/// The characteristic's 16-bit UUID equals the role's UUID.
pub open spec fn exact_match(c: GattCharacteristic, role: Role) -> bool {
    c.uuid16 == Some(role_uuid16(role))
}

/// The role's fragment occurs in the characteristic's normalized (dashes
/// removed, ASCII-lowercased) textual UUID.
pub open spec fn fallback_match(c: GattCharacteristic, role: Role) -> bool {
    contains_seq(lower_seq(strip_dashes_seq(c.uuid_text@)), lower_seq(role_fragment(role)))
}

/// The match test of one pass.
pub open spec fn pass_match(c: GattCharacteristic, role: Role, exact: bool) -> bool {
    if exact {
        exact_match(c, role)
    } else {
        fallback_match(c, role)
    }
}

/// The index chosen for `role` is in range and matches it, exactly or by
/// fragment.
pub open spec fn role_selected(chars: Seq<GattCharacteristic>, j: int, role: Role) -> bool {
    0 <= j < chars.len() && (exact_match(chars[j], role) || fallback_match(chars[j], role))
}

/// One resolution pass over `chars[i..]`: each characteristic fills the
/// first still-open role it matches (receive tried first, then send, then
/// flag) and fills at most one role per pass step.
pub open spec fn resolution_pass(
    chars: Seq<GattCharacteristic>,
    i: int,
    flag: Option<int>,
    receive: Option<int>,
    send: Option<int>,
    exact: bool,
) -> (Option<int>, Option<int>, Option<int>)
    decreases chars.len() - i,
{
    if i < 0 || i >= chars.len() {
        (flag, receive, send)
    } else {
        let c = chars[i];
        if receive is None && pass_match(c, Role::Receive, exact) {
            resolution_pass(chars, i + 1, flag, Some(i), send, exact)
        } else if send is None && pass_match(c, Role::Send, exact) {
            resolution_pass(chars, i + 1, flag, receive, Some(i), exact)
        } else if flag is None && pass_match(c, Role::Flag, exact) {
            resolution_pass(chars, i + 1, Some(i), receive, send, exact)
        } else {
            resolution_pass(chars, i + 1, flag, receive, send, exact)
        }
    }
}

/// The two-pass resolution: exact UUID matches first; if any role is still
/// open, a fragment pass over the same list; then the first unresolved role
/// (flag, then receive, then send) is the error.
pub open spec fn spec_resolve(chars: Seq<GattCharacteristic>) -> Result<
    (int, int, int),
    Role,
> {
    let p1 = resolution_pass(chars, 0, None, None, None, true);
    let p = if p1.0 is None || p1.1 is None || p1.2 is None {
        resolution_pass(chars, 0, p1.0, p1.1, p1.2, false)
    } else {
        p1
    };
    match p {
        (Some(f), Some(r), Some(s)) => Ok((f, r, s)),
        _ => {
            if p.0 is None {
                Err(Role::Flag)
            } else if p.1 is None {
                Err(Role::Receive)
            } else {
                Err(Role::Send)
            }
        },
    }
}

/// A slot filled by a pass holds an in-range index matching its role with
/// the pass's own test, unless it was filled before the pass.
proof fn lemma_pass_sound(
    chars: Seq<GattCharacteristic>,
    i: int,
    flag: Option<int>,
    receive: Option<int>,
    send: Option<int>,
    exact: bool,
)
    ensures
        ({
            let p = resolution_pass(chars, i, flag, receive, send, exact);
            &&& (p.0 == flag || (p.0 matches Some(j) && 0 <= j < chars.len() && pass_match(
                chars[j],
                Role::Flag,
                exact,
            )))
            &&& (p.1 == receive || (p.1 matches Some(j) && 0 <= j < chars.len() && pass_match(
                chars[j],
                Role::Receive,
                exact,
            )))
            &&& (p.2 == send || (p.2 matches Some(j) && 0 <= j < chars.len() && pass_match(
                chars[j],
                Role::Send,
                exact,
            )))
        }),
    decreases chars.len() - i,
{
    if i < 0 || i >= chars.len() {
    } else {
        let c = chars[i];
        if receive is None && pass_match(c, Role::Receive, exact) {
            lemma_pass_sound(chars, i + 1, flag, Some(i), send, exact);
        } else if send is None && pass_match(c, Role::Send, exact) {
            lemma_pass_sound(chars, i + 1, flag, receive, Some(i), exact);
        } else if flag is None && pass_match(c, Role::Flag, exact) {
            lemma_pass_sound(chars, i + 1, Some(i), receive, send, exact);
        } else {
            lemma_pass_sound(chars, i + 1, flag, receive, send, exact);
        }
    }
}

/// A successful resolution picks, for every role, a characteristic that
/// matches it exactly or by fragment.
pub proof fn lemma_resolution_selects_matching(chars: Seq<GattCharacteristic>)
    ensures
        spec_resolve(chars) matches Ok(idx) ==> role_selected(chars, idx.0, Role::Flag)
            && role_selected(chars, idx.1, Role::Receive) && role_selected(
            chars,
            idx.2,
            Role::Send,
        ),
{
    let p1 = resolution_pass(chars, 0, None, None, None, true);
    lemma_pass_sound(chars, 0, None, None, None, true);
    if p1.0 is None || p1.1 is None || p1.2 is None {
        lemma_pass_sound(chars, 0, p1.0, p1.1, p1.2, false);
    }
}

/// Some characteristic in `chars[i..]` matches `role` exactly.
pub open spec fn has_exact_match(chars: Seq<GattCharacteristic>, i: int, role: Role) -> bool {
    exists|j: int| i <= j < chars.len() && #[trigger] exact_match(chars[j], role)
}

/// In the exact pass, a slot ends filled exactly when it started filled or
/// some characteristic in range carries the role's own 16-bit UUID: no
/// characteristic can exactly match two roles, so none is claimed away.
proof fn lemma_exact_pass_fills(
    chars: Seq<GattCharacteristic>,
    i: int,
    flag: Option<int>,
    receive: Option<int>,
    send: Option<int>,
)
    requires
        0 <= i,
    ensures
        ({
            let p = resolution_pass(chars, i, flag, receive, send, true);
            &&& (p.0 is Some <==> flag is Some || has_exact_match(chars, i, Role::Flag))
            &&& (p.1 is Some <==> receive is Some || has_exact_match(chars, i, Role::Receive))
            &&& (p.2 is Some <==> send is Some || has_exact_match(chars, i, Role::Send))
        }),
    decreases chars.len() - i,
{
    if i < 0 || i >= chars.len() {
    } else {
        let c = chars[i];
        if receive is None && pass_match(c, Role::Receive, true) {
            lemma_exact_pass_fills(chars, i + 1, flag, Some(i), send);
        } else if send is None && pass_match(c, Role::Send, true) {
            lemma_exact_pass_fills(chars, i + 1, flag, receive, Some(i));
        } else if flag is None && pass_match(c, Role::Flag, true) {
            lemma_exact_pass_fills(chars, i + 1, Some(i), receive, send);
        } else {
            lemma_exact_pass_fills(chars, i + 1, flag, receive, send);
        }
        assert forall|role: Role| exact_match(c, role) implies has_exact_match(
            chars,
            i,
            role,
        ) by {
            assert(i <= i < chars.len() && exact_match(chars[i], role));
        }
        assert forall|role: Role| has_exact_match(chars, i + 1, role) implies has_exact_match(
            chars,
            i,
            role,
        ) by {
            let j = choose|j: int| i + 1 <= j < chars.len() && #[trigger] exact_match(
                chars[j],
                role,
            );
            assert(i <= j < chars.len() && exact_match(chars[j], role));
        }
        assert forall|role: Role|
            has_exact_match(chars, i, role) && !exact_match(c, role) implies has_exact_match(
            chars,
            i + 1,
            role,
        ) by {
            let j = choose|j: int| i <= j < chars.len() && #[trigger] exact_match(chars[j], role);
            assert(j != i);
            assert(i + 1 <= j < chars.len() && exact_match(chars[j], role));
        }
    }
}

/// Exact matches are authoritative: a characteristic list carrying each
/// role's own 16-bit UUID always resolves, and when a role is reported
/// missing, no characteristic carried its UUID.
pub proof fn lemma_exact_match_authoritative(chars: Seq<GattCharacteristic>)
    ensures
        has_exact_match(chars, 0, Role::Flag) && has_exact_match(chars, 0, Role::Receive)
            && has_exact_match(chars, 0, Role::Send) ==> spec_resolve(chars) is Ok,
        spec_resolve(chars) matches Err(role) ==> !has_exact_match(chars, 0, role),
{
    let p1 = resolution_pass(chars, 0, None, None, None, true);
    lemma_exact_pass_fills(chars, 0, None, None, None);
    if p1.0 is None || p1.1 is None || p1.2 is None {
        lemma_pass_sound(chars, 0, p1.0, p1.1, p1.2, false);
    }
}

/// `Some(index)` as a spec-level option over `int`.
pub open spec fn opt_index(o: Option<usize>) -> Option<int> {
    match o {
        Some(v) => Some(v as int),
        None => None,
    }
}

/// Fragment bytes of a role as a vector.
fn role_fragment_bytes(role: Role) -> (v: Vec<u8>)
    ensures
        v@ == role_fragment(role),
{
    let a: [u8; 4] = match role {
        Role::Flag => [0x30, 0x30, 0x35, 0x30],
        Role::Receive => [0x30, 0x30, 0x35, 0x65],
        Role::Send => [0x30, 0x30, 0x35, 0x66],
    };
    let v = vstd::slice::slice_to_vec(a.as_slice());
    proof {
        assert(v@ =~= role_fragment(role));
    }
    v
}

/// Whether a role fragment (or any needle) occurs in a textual UUID, after
/// removing dashes and lowercasing both sides.
pub fn uuid_contains(uuid_text: &[u8], needle: &[u8]) -> (r: bool)
    ensures
        r == contains_seq(lower_seq(strip_dashes_seq(uuid_text@)), lower_seq(needle@)),
{
    let stripped = strip_dashes(uuid_text);
    let hay = lower_ascii(stripped.as_slice());
    let needle_lc = lower_ascii(needle);
    contains_bytes(hay.as_slice(), needle_lc.as_slice())
}

/// The match test of one pass, on one characteristic.
fn role_matches(c: &GattCharacteristic, role: Role, exact: bool) -> (r: bool)
    ensures
        r == pass_match(*c, role, exact),
{
    if exact {
        match c.uuid16 {
            Some(u) => {
                u == match role {
                    Role::Flag => 0x0050u16,
                    Role::Receive => 0x005Eu16,
                    Role::Send => 0x005Fu16,
                }
            },
            None => false,
        }
    } else {
        let fragment = role_fragment_bytes(role);
        uuid_contains(c.uuid_text.as_slice(), fragment.as_slice())
    }
}

/// One resolution pass over the whole list, starting from already-filled
/// slots.
fn run_pass(
    chars: &Vec<GattCharacteristic>,
    flag: Option<usize>,
    receive: Option<usize>,
    send: Option<usize>,
    exact: bool,
) -> (r: (Option<usize>, Option<usize>, Option<usize>))
    ensures
        (opt_index(r.0), opt_index(r.1), opt_index(r.2)) == resolution_pass(
            chars@,
            0,
            opt_index(flag),
            opt_index(receive),
            opt_index(send),
            exact,
        ),
{
    let ghost init = (opt_index(flag), opt_index(receive), opt_index(send));
    let mut f = flag;
    let mut r = receive;
    let mut s = send;
    let n = chars.len();
    let mut i: usize = 0;
    while i < n
        invariant
            n == chars@.len(),
            i <= n,
            resolution_pass(chars@, 0, init.0, init.1, init.2, exact) == resolution_pass(
                chars@,
                i as int,
                opt_index(f),
                opt_index(r),
                opt_index(s),
                exact,
            ),
        decreases n - i,
    {
        let c = &chars[i];
        if r.is_none() && role_matches(c, Role::Receive, exact) {
            r = Some(i);
        } else if s.is_none() && role_matches(c, Role::Send, exact) {
            s = Some(i);
        } else if f.is_none() && role_matches(c, Role::Flag, exact) {
            f = Some(i);
        }
        i = i + 1;
    }
    (f, r, s)
}

/// Maps the discovered characteristic list to the three roles: an exact
/// 16-bit UUID pass, then a fragment pass for the roles still open, then an
/// error naming the first unresolved role.
///
/// On success each chosen index is in range and its characteristic matches
/// the role, exactly or by fragment.
pub fn resolve(chars: &Vec<GattCharacteristic>) -> (r: Result<ResolvedRoles, BridgeError>)
    ensures
        match r {
            Ok(rr) => {
                &&& spec_resolve(chars@) == Ok::<_, Role>(
                    (rr.flag as int, rr.receive as int, rr.send as int),
                )
                &&& role_selected(chars@, rr.flag as int, Role::Flag)
                &&& role_selected(chars@, rr.receive as int, Role::Receive)
                &&& role_selected(chars@, rr.send as int, Role::Send)
            },
            Err(e) => {
                &&& spec_resolve(chars@) matches Err(role)
                &&& e == BridgeError::MissingCharacteristic(
                    spec_resolve(chars@)->Err_0,
                )
            },
        },
{
    let (f1, r1, s1) = run_pass(chars, None, None, None, true);
    let (f, r, s) = if f1.is_none() || r1.is_none() || s1.is_none() {
        run_pass(chars, f1, r1, s1, false)
    } else {
        (f1, r1, s1)
    };
    proof {
        lemma_resolution_selects_matching(chars@);
    }
    match (f, r, s) {
        (Some(flag), Some(receive), Some(send)) => Ok(
            ResolvedRoles { flag, receive, send },
        ),
        (None, _, _) => Err(BridgeError::MissingCharacteristic(Role::Flag)),
        (_, None, _) => Err(BridgeError::MissingCharacteristic(Role::Receive)),
        (_, _, None) => Err(BridgeError::MissingCharacteristic(Role::Send)),
    }
}

} // verus!
