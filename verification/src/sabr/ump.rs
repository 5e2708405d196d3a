//! The framing of a response: one part after another, each with its type and its length in front.
use vstd::prelude::*;

verus! {

/// Announces a segment.
pub const MEDIA_HEADER: u32 = 20;

/// Carries media.
pub const MEDIA: u32 = 21;

/// Ends a segment.
pub const MEDIA_END: u32 = 22;

/// Says what the server wants of the next request.
pub const NEXT_REQUEST_POLICY: u32 = 35;

/// Announces a format.
pub const FORMAT_INITIALIZATION_METADATA: u32 = 42;

/// Sends the client elsewhere.
pub const SABR_REDIRECT: u32 = 43;

/// Reports an error.
pub const SABR_ERROR: u32 = 44;

/// Gives a context a value.
pub const SABR_CONTEXT_UPDATE: u32 = 57;

/// Says whether the server wants the client to attest itself.
pub const STREAM_PROTECTION_STATUS: u32 = 58;

/// Says which contexts are to be sent.
pub const SABR_CONTEXT_SENDING_POLICY: u32 = 59;

/// What a part holds, by its type.
#[derive(Debug, Clone, Copy, PartialEq, Eq, Structural)]
pub enum PartKind {
    /// A segment's announcement.
    MediaHeader,
    /// Media.
    Media,
    /// A segment's end.
    MediaEnd,
    /// What the server wants of the next request.
    NextRequestPolicy,
    /// A format's announcement.
    FormatInit,
    /// Where else to go.
    Redirect,
    /// An error.
    Error,
    /// A context's new value.
    ContextUpdate,
    /// Whether the server wants the client to attest itself.
    StreamProtection,
    /// Which contexts are to be sent.
    ContextSendingPolicy,
    /// Anything else.
    Other,
}

/// What a part of the given type holds.
pub open spec fn kind_of_type(part_type: u32) -> PartKind {
    if part_type == MEDIA_HEADER {
        PartKind::MediaHeader
    } else if part_type == MEDIA {
        PartKind::Media
    } else if part_type == MEDIA_END {
        PartKind::MediaEnd
    } else if part_type == NEXT_REQUEST_POLICY {
        PartKind::NextRequestPolicy
    } else if part_type == FORMAT_INITIALIZATION_METADATA {
        PartKind::FormatInit
    } else if part_type == SABR_REDIRECT {
        PartKind::Redirect
    } else if part_type == SABR_ERROR {
        PartKind::Error
    } else if part_type == SABR_CONTEXT_UPDATE {
        PartKind::ContextUpdate
    } else if part_type == STREAM_PROTECTION_STATUS {
        PartKind::StreamProtection
    } else if part_type == SABR_CONTEXT_SENDING_POLICY {
        PartKind::ContextSendingPolicy
    } else {
        PartKind::Other
    }
}

/// What a part of the given type holds.
pub fn part_kind(part_type: u32) -> (kind: PartKind)
    ensures
        kind == kind_of_type(part_type),
{
    match part_type {
        MEDIA_HEADER => PartKind::MediaHeader,
        MEDIA => PartKind::Media,
        MEDIA_END => PartKind::MediaEnd,
        NEXT_REQUEST_POLICY => PartKind::NextRequestPolicy,
        FORMAT_INITIALIZATION_METADATA => PartKind::FormatInit,
        SABR_REDIRECT => PartKind::Redirect,
        SABR_ERROR => PartKind::Error,
        SABR_CONTEXT_UPDATE => PartKind::ContextUpdate,
        STREAM_PROTECTION_STATUS => PartKind::StreamProtection,
        SABR_CONTEXT_SENDING_POLICY => PartKind::ContextSendingPolicy,
        _ => PartKind::Other,
    }
}

/// How many bytes a number takes that begins with the given byte.
pub open spec fn number_width(first: u8) -> nat {
    if first < 128 {
        1
    } else if first < 192 {
        2
    } else if first < 224 {
        3
    } else if first < 240 {
        4
    } else {
        5
    }
}

/// The number at the front of `b`, which must hold all of it.
pub open spec fn number_value(b: Seq<u8>) -> nat {
    let first = b[0] as nat;
    if first < 128 {
        first
    } else if first < 192 {
        first % 64 + 64 * (b[1] as nat)
    } else if first < 224 {
        first % 32 + 32 * (b[1] as nat) + 8192 * (b[2] as nat)
    } else if first < 240 {
        first % 16 + 16 * (b[1] as nat) + 4096 * (b[2] as nat) + 1048576 * (b[3] as nat)
    } else {
        b[1] as nat + 256 * (b[2] as nat) + 65536 * (b[3] as nat) + 16777216 * (b[4] as nat)
    }
}

/// The number at the front of `b` and how many bytes it takes, where `b` holds all of it.
pub open spec fn number_in(b: Seq<u8>) -> Option<(nat, nat)> {
    if b.len() > 0 && b.len() >= number_width(b[0]) {
        Some((number_value(b), number_width(b[0])))
    } else {
        None
    }
}

/// One part of a response.
#[derive(Debug)]
pub struct UmpPart {
    /// Its type.
    pub part_type: u32,
    /// What it holds.
    pub data: Vec<u8>,
}

/// What an [`UmpPart`] says.
pub struct UmpPartView {
    /// Its type.
    pub part_type: u32,
    /// What it holds.
    pub data: Seq<u8>,
}

impl View for UmpPart {
    type V = UmpPartView;

    open spec fn view(&self) -> UmpPartView {
        UmpPartView { part_type: self.part_type, data: self.data@ }
    }
}

/// Where the front part of `b` has its data, and where it ends: its type, the data's offset and the
/// data's length, where `b` holds both numbers.
pub open spec fn part_head(b: Seq<u8>) -> Option<(nat, nat, nat)> {
    match number_in(b) {
        Some((kind, n)) => match number_in(b.skip(n as int)) {
            Some((size, m)) => Some((kind, n + m, size)),
            None => None,
        },
        None => None,
    }
}

/// The part at the front of `b` and how many bytes it takes, where `b` holds all of it.
pub open spec fn part_in(b: Seq<u8>) -> Option<(UmpPartView, nat)> {
    match part_head(b) {
        Some((kind, at, size)) => if at + size <= b.len() {
            Some(
                (
                    UmpPartView {
                        part_type: kind as u32,
                        data: b.subrange(at as int, (at + size) as int),
                    },
                    at + size,
                ),
            )
        } else {
            None
        },
        None => None,
    }
}

/// Reads the number at the offset `at`.
fn read_number(b: &Vec<u8>, at: usize) -> (res: Option<(u32, usize)>)
    requires
        at <= b@.len(),
    ensures
        match res {
            Some((value, width)) => number_in(b@.skip(at as int)) == Some(
                (value as nat, width as nat),
            ) && at + width <= b@.len(),
            None => number_in(b@.skip(at as int)) is None,
        },
{
    let ghost rest = b@.skip(at as int);
    let left = b.len() - at;
    if left == 0 {
        return None;
    }
    let first = b[at];
    assert(rest[0] == first);
    let width: usize = if first < 128 {
        1
    } else if first < 192 {
        2
    } else if first < 224 {
        3
    } else if first < 240 {
        4
    } else {
        5
    };
    if left < width {
        return None;
    }
    let value: u32 = if width == 1 {
        first as u32
    } else if width == 2 {
        (first % 64) as u32 + 64 * (b[at + 1] as u32)
    } else if width == 3 {
        (first % 32) as u32 + 32 * (b[at + 1] as u32) + 8192 * (b[at + 2] as u32)
    } else if width == 4 {
        (first % 16) as u32 + 16 * (b[at + 1] as u32) + 4096 * (b[at + 2] as u32) + 1048576 * (b[at
            + 3] as u32)
    } else {
        b[at + 1] as u32 + 256 * (b[at + 2] as u32) + 65536 * (b[at + 3] as u32) + 16777216 * (b[at
            + 4] as u32)
    };
    Some((value, width))
}

/// Takes a response apart as its bytes come in.
pub struct UmpParser {
    /// The bytes that have not been taken yet.
    pub buffer: Vec<u8>,
}

impl UmpParser {
    /// A parser that has seen nothing.
    pub fn new() -> (p: UmpParser)
        ensures
            p.buffer@ == Seq::<u8>::empty(),
    {
        UmpParser { buffer: Vec::new() }
    }

    /// Adds the bytes that have come in.
    pub fn push(&mut self, data: &[u8])
        ensures
            final(self).buffer@ == old(self).buffer@ + data@,
    {
        self.buffer.extend_from_slice(data);
    }

    /// Takes the next part, where all of it has come in.
    pub fn next_part(&mut self) -> (part: Option<UmpPart>)
        ensures
            match part_in(old(self).buffer@) {
                Some((p, n)) => {
                    &&& part matches Some(q) && q@ == p
                    &&& final(self).buffer@ == old(self).buffer@.skip(n as int)
                },
                None => part is None && final(self).buffer@ == old(self).buffer@,
            },
    {
        let ghost b = self.buffer@;
        assert(b.skip(0) =~= b);
        let (part_type, n) = match read_number(&self.buffer, 0) {
            Some(found) => found,
            None => return None,
        };
        let (size, m) = match read_number(&self.buffer, n) {
            Some(found) => found,
            None => return None,
        };
        let at = n + m;
        if ((self.buffer.len() - at) as u64) < size as u64 {
            return None;
        }
        let end = at + size as usize;
        let rest = self.buffer.split_off(end);
        let data = self.buffer.split_off(at);
        self.buffer = rest;
        assert(self.buffer@ =~= b.skip(end as int));
        assert(data@ =~= b.subrange(at as int, end as int));
        Some(UmpPart { part_type, data })
    }
}

/// All parts that `b` holds whole, in order.
pub open spec fn parts_in(b: Seq<u8>) -> Seq<UmpPartView>
    decreases b.len(),
{
    match part_in(b) {
        Some((p, n)) => if 0 < n <= b.len() {
            seq![p] + parts_in(b.skip(n as int))
        } else {
            Seq::empty()
        },
        None => Seq::empty(),
    }
}

/// What is left of `b` behind those parts.
pub open spec fn unread(b: Seq<u8>) -> Seq<u8>
    decreases b.len(),
{
    match part_in(b) {
        Some((p, n)) => if 0 < n <= b.len() {
            unread(b.skip(n as int))
        } else {
            b
        },
        None => b,
    }
}

/// A number is the same whatever follows it.
proof fn lemma_number_extends(b: Seq<u8>, more: Seq<u8>)
    ensures
        number_in(b) is Some ==> number_in(b + more) == number_in(b),
{
    if number_in(b) is Some {
        let all = b + more;
        assert(forall|i: int| 0 <= i < b.len() ==> all[i] == b[i]);
    }
}

/// A part that has come in whole is the same whatever follows it.
pub proof fn law_part_is_kept_by_what_follows(b: Seq<u8>, more: Seq<u8>)
    ensures
        part_in(b) is Some ==> part_in(b + more) == part_in(b),
        part_in(b) matches Some((_, n)) ==> 2 <= n <= b.len(),
{
    if let Some((p, n)) = part_in(b) {
        lemma_number_extends(b, more);
        let (_, w) = number_in(b)->0;
        assert((b + more).skip(w as int) =~= b.skip(w as int) + more);
        lemma_number_extends(b.skip(w as int), more);
        let (kind, at, size) = part_head(b)->0;
        assert((b + more).subrange(at as int, (at + size) as int) =~= b.subrange(
            at as int,
            (at + size) as int,
        ));
    }
}

/// The parts do not depend on how the response is cut into pieces: taking all parts of the first
/// piece, and then those of what is left with the second piece behind it, gives the parts of the
/// two pieces together.
pub proof fn law_parts_do_not_depend_on_pieces(a: Seq<u8>, b: Seq<u8>)
    ensures
        parts_in(a + b) == parts_in(a) + parts_in(unread(a) + b),
        unread(a + b) == unread(unread(a) + b),
    decreases a.len(),
{
    law_part_is_kept_by_what_follows(a, b);
    match part_in(a) {
        Some((p, n)) => {
            let rest = a.skip(n as int);
            assert((a + b).skip(n as int) =~= rest + b);
            law_parts_do_not_depend_on_pieces(rest, b);
            assert(parts_in(a + b) == seq![p] + parts_in(rest + b));
            assert(parts_in(a + b) =~= parts_in(a) + parts_in(unread(a) + b));
        },
        None => {
            assert(parts_in(a) + parts_in(a + b) =~= parts_in(a + b));
        },
    }
}

/// The shortest form of a number of up to 32 bits.
pub open spec fn encoded_number(n: nat) -> Seq<u8> {
    if n < 0x80 {
        seq![n as u8]
    } else if n < 0x4000 {
        seq![(128 + n % 64) as u8, (n / 64) as u8]
    } else if n < 0x20_0000 {
        seq![(192 + n % 32) as u8, (n / 32 % 256) as u8, (n / 32 / 256) as u8]
    } else if n < 0x1000_0000 {
        seq![
            (224 + n % 16) as u8,
            (n / 16 % 256) as u8,
            (n / 16 / 256 % 256) as u8,
            (n / 16 / 256 / 256) as u8,
        ]
    } else {
        seq![
            240u8,
            (n % 256) as u8,
            (n / 256 % 256) as u8,
            (n / 256 / 256 % 256) as u8,
            (n / 256 / 256 / 256) as u8,
        ]
    }
}

/// The bytes of a part.
pub open spec fn encoded_part(p: UmpPartView) -> Seq<u8> {
    encoded_number(p.part_type as nat) + encoded_number(p.data.len()) + p.data
}

/// A number reads back as it was written, whatever follows it.
pub proof fn law_number_reads_back(n: nat, more: Seq<u8>)
    requires
        n <= u32::MAX,
    ensures
        number_in(encoded_number(n) + more) == Some((n, encoded_number(n).len())),
{
    let all = encoded_number(n) + more;
    let e = encoded_number(n);
    assert(forall|i: int| 0 <= i < e.len() ==> all[i] == e[i]);
    if n < 0x80 {
    } else if n < 0x4000 {
        let q = n / 64;
        assert(all[0] == 128 + n % 64 && all[1] == q);
    } else if n < 0x20_0000 {
        let q = n / 32;
        let r = q / 256;
        assert(all[0] == 192 + n % 32 && all[1] == q % 256 && all[2] == r);
    } else if n < 0x1000_0000 {
        let q = n / 16;
        let r = q / 256;
        let t = r / 256;
        assert(all[0] == 224 + n % 16 && all[1] == q % 256 && all[2] == r % 256 && all[3] == t);
    } else {
        let q = n / 256;
        let r = q / 256;
        let t = r / 256;
        assert(all[0] == 240 && all[1] == n % 256 && all[2] == q % 256 && all[3] == r % 256
            && all[4] == t);
    }
}

/// A part reads back as it was written, whatever follows it.
pub proof fn law_part_reads_back(p: UmpPartView, more: Seq<u8>)
    requires
        p.data.len() <= u32::MAX,
    ensures
        part_in(encoded_part(p) + more) == Some((p, encoded_part(p).len())),
{
    let kind = encoded_number(p.part_type as nat);
    let size = encoded_number(p.data.len());
    let all = encoded_part(p) + more;
    assert(all =~= kind + (size + (p.data + more)));
    law_number_reads_back(p.part_type as nat, size + (p.data + more));
    assert(all.skip(kind.len() as int) =~= size + (p.data + more));
    law_number_reads_back(p.data.len(), p.data + more);
    let at = kind.len() + size.len();
    assert(all.subrange(at as int, (at + p.data.len()) as int) =~= p.data);
}

} // verus!
