//! Values of the protocol as text, for logs and diagnostics.
//!
//! What a value reads as is said by a spec function over `Seq<char>`; the
//! executable functions build a `String` and are proved to build that text.

use vstd::prelude::*;
use vstd::slice::slice_to_vec;
use vstd::string::StringExecFns;
use vstd::utf8::{decode_utf8, valid_utf8, encode_utf8_decode_utf8};
use crate::address::{Address, AddressModel};
use crate::bulk::{FiltersResp, FiltersRespModel, MempoolChunkResp, MempoolChunkRespModel};
use crate::currency::{Currency, Fiat};
use crate::fee::{FeeBtc, FeeOther, FeeResp};
use crate::fields::text_from_utf8;
use crate::filters::{Filter, FilterEvent, FilterEventModel, FilterModel, FilterPrefixPair, FilterPrefixPairModel, FiltersReq, MemFilter, TxPrefix};
use crate::handshake::{ScanBlock, VersionMessage, VersionMessageModel};
use crate::message::{spec_name_from_id, Message, MessageModel};
use crate::rates::{FiatRate, Rate, RateReq, RateReqModel, RateResp, RateRespModel};
use crate::reject::{RejectData, RejectMessage, RejectMessageModel};
use crate::version::Version;
use crate::wire::seq_view;

verus! {

/// The character of a digit: `0` to `9`, then `a` to `f`.
pub open spec fn digit_char(d: int) -> char {
    if d == 0 {
        '0'
    } else if d == 1 {
        '1'
    } else if d == 2 {
        '2'
    } else if d == 3 {
        '3'
    } else if d == 4 {
        '4'
    } else if d == 5 {
        '5'
    } else if d == 6 {
        '6'
    } else if d == 7 {
        '7'
    } else if d == 8 {
        '8'
    } else if d == 9 {
        '9'
    } else if d == 10 {
        'a'
    } else if d == 11 {
        'b'
    } else if d == 12 {
        'c'
    } else if d == 13 {
        'd'
    } else if d == 14 {
        'e'
    } else {
        'f'
    }
}

/// A number in decimal digits, without leading zeros; zero is `0`.
pub open spec fn decimal_text(n: nat) -> Seq<char>
    decreases n,
{
    if n < 10 {
        seq![digit_char(n as int)]
    } else {
        decimal_text(n / 10).push(digit_char((n % 10) as int))
    }
}

/// A number in lower-case hexadecimal digits, without leading zeros; zero
/// is `0`.
pub open spec fn hex_text(n: nat) -> Seq<char>
    decreases n,
{
    if n < 16 {
        seq![digit_char(n as int)]
    } else {
        hex_text(n / 16).push(digit_char((n % 16) as int))
    }
}

/// Bytes in lower-case hexadecimal digits, two for each byte.
pub open spec fn hex_bytes_text(bytes: Seq<u8>) -> Seq<char> {
    Seq::new(
        2 * bytes.len(),
        |i: int|
            if i % 2 == 0 {
                digit_char(bytes[i / 2] as int / 16)
            } else {
                digit_char(bytes[i / 2] as int % 16)
            },
    )
}

/// The digit `d` as text.
fn digit_str(d: u8) -> (r: &'static str)
    requires
        d < 16,
    ensures
        r@ == seq![digit_char(d as int)],
{
    proof {
        reveal_strlit("0");
        reveal_strlit("1");
        reveal_strlit("2");
        reveal_strlit("3");
        reveal_strlit("4");
        reveal_strlit("5");
        reveal_strlit("6");
        reveal_strlit("7");
        reveal_strlit("8");
        reveal_strlit("9");
        reveal_strlit("a");
        reveal_strlit("b");
        reveal_strlit("c");
        reveal_strlit("d");
        reveal_strlit("e");
        reveal_strlit("f");
    }
    let r = match d {
        0 => "0",
        1 => "1",
        2 => "2",
        3 => "3",
        4 => "4",
        5 => "5",
        6 => "6",
        7 => "7",
        8 => "8",
        9 => "9",
        10 => "a",
        11 => "b",
        12 => "c",
        13 => "d",
        14 => "e",
        _ => "f",
    };
    assert(r@ =~= seq![digit_char(d as int)]);
    r
}

/// Appends `x` in decimal digits.
pub fn push_decimal(out: &mut String, x: u64)
    ensures
        final(out)@ == old(out)@ + decimal_text(x as nat),
    decreases x,
{
    if x >= 10 {
        push_decimal(out, x / 10);
    }
    out.append(digit_str((x % 10) as u8));
}

/// Appends `x` in lower-case hexadecimal digits, without leading zeros.
pub fn push_hex(out: &mut String, x: u16)
    ensures
        final(out)@ == old(out)@ + hex_text(x as nat),
    decreases x,
{
    if x >= 16 {
        push_hex(out, x / 16);
    }
    out.append(digit_str((x % 16) as u8));
}

/// Appends `bytes` in lower-case hexadecimal digits, two for each byte.
pub fn push_hex_bytes(out: &mut String, bytes: &[u8])
    ensures
        final(out)@ == old(out)@ + hex_bytes_text(bytes@),
{
    let ghost start = out@;
    let mut i: usize = 0;
    assert(hex_bytes_text(bytes@.take(0)) =~= Seq::<char>::empty());
    while i < bytes.len()
        invariant
            i <= bytes@.len(),
            out@ == start + hex_bytes_text(bytes@.take(i as int)),
        decreases bytes@.len() - i,
    {
        let byte: u8 = bytes[i];
        out.append(digit_str(byte / 16));
        out.append(digit_str(byte % 16));
        proof {
            assert(hex_bytes_text(bytes@.take(i + 1)) =~= hex_bytes_text(bytes@.take(i as int))
                + seq![digit_char(byte as int / 16)] + seq![digit_char(byte as int % 16)]);
        }
        i += 1;
    }
    assert(bytes@.take(i as int) =~= bytes@);
}

/// `bytes` in lower-case hexadecimal digits, two for each byte.
pub fn to_hex(bytes: &[u8]) -> (r: String)
    ensures
        r@ == hex_bytes_text(bytes@),
{
    let mut r = String::new();
    push_hex_bytes(&mut r, bytes);
    assert(Seq::<char>::empty() + hex_bytes_text(bytes@) =~= hex_bytes_text(bytes@));
    r
}

/// A type whose values can be shown as text.
pub trait Text: View {
    /// What a value reads as.
    spec fn text(m: Self::V) -> Seq<char>;

    /// The value as text.
    fn to_text(&self) -> (r: String)
        ensures
            r@ == Self::text(self@),
    ;
}

/// The texts of the items with a comma and a blank between them.
pub open spec fn list_text<T: Text>(items: Seq<T::V>) -> Seq<char>
    decreases items.len(),
{
    if items.len() == 0 {
        Seq::empty()
    } else if items.len() == 1 {
        T::text(items[0])
    } else {
        list_text::<T>(items.drop_last()) + ", "@ + T::text(items.last())
    }
}

/// Appends the text of `value`.
pub fn push_text<T: Text>(out: &mut String, value: &T)
    ensures
        final(out)@ == old(out)@ + T::text(value@),
{
    let text = value.to_text();
    out.append(text.as_str());
}

/// Appends the texts of `items` with a comma and a blank between them.
pub fn fmt_vec<T: Text>(out: &mut String, items: &[T])
    ensures
        final(out)@ == old(out)@ + list_text::<T>(seq_view(items@)),
{
    let ghost start = out@;
    let ghost models = seq_view(items@);
    let mut i: usize = 0;
    assert(start + list_text::<T>(models.take(0)) =~= start);
    while i < items.len()
        invariant
            i <= items@.len(),
            models == seq_view(items@),
            out@ == start + list_text::<T>(models.take(i as int)),
        decreases items@.len() - i,
    {
        if i > 0 {
            out.append(", ");
        }
        push_text(out, &items[i]);
        proof {
            let next = models.take(i + 1);
            assert(next.last() == models[i as int]);
            assert(next.drop_last() =~= models.take(i as int));
            assert(out@ =~= start + list_text::<T>(next));
        }
        i += 1;
    }
    assert(models.take(i as int) =~= models);
}

/// The label, and for an `Unknown` a blank and the number it holds.
pub open spec fn labelled(label: Seq<char>, unknown: Option<u32>) -> Seq<char> {
    match unknown {
        Some(i) => label + " "@ + decimal_text(i as nat),
        None => label,
    }
}

/// Builds [`labelled`].
fn labelled_text(label: &str, unknown: Option<u32>) -> (r: String)
    ensures
        r@ == labelled(label@, unknown),
{
    let mut r = String::from_str(label);
    match unknown {
        Some(i) => {
            r.append(" ");
            push_decimal(&mut r, i as u64);
        },
        None => {},
    }
    r
}

impl Text for Currency {
    /// The name in words; for an `Unknown` also its index.
    open spec fn text(m: Currency) -> Seq<char> {
        labelled(
            m.spec_label(),
            match m {
                Currency::Unknown(i) => Some(i),
                _ => None,
            },
        )
    }

    fn to_text(&self) -> (r: String) {
        match self {
            Currency::Unknown(i) => labelled_text(self.label(), Some(*i)),
            _ => labelled_text(self.label(), None),
        }
    }
}

impl Text for Fiat {
    /// The name in words; for an `Unknown` also its index.
    open spec fn text(m: Fiat) -> Seq<char> {
        labelled(
            m.spec_label(),
            match m {
                Fiat::Unknown(i) => Some(i),
                _ => None,
            },
        )
    }

    fn to_text(&self) -> (r: String) {
        match self {
            Fiat::Unknown(i) => labelled_text(self.label(), Some(*i)),
            _ => labelled_text(self.label(), None),
        }
    }
}

impl Text for RejectData {
    /// The reason in words; for an `Unknown` also its code.
    open spec fn text(m: RejectData) -> Seq<char> {
        labelled(
            m.spec_label(),
            match m {
                RejectData::Unknown(i) => Some(i),
                _ => None,
            },
        )
    }

    fn to_text(&self) -> (r: String) {
        match self {
            RejectData::Unknown(i) => labelled_text(self.label(), Some(*i)),
            _ => labelled_text(self.label(), None),
        }
    }
}

impl Text for Version {
    /// The three fields in decimal digits with dots between them.
    open spec fn text(m: Version) -> Seq<char> {
        decimal_text(m.major as nat) + "."@ + decimal_text(m.minor as nat) + "."@ + decimal_text(
            m.patch as nat,
        )
    }

    fn to_text(&self) -> (r: String) {
        let mut r = String::new();
        push_decimal(&mut r, self.major as u64);
        r.append(".");
        push_decimal(&mut r, self.minor as u64);
        r.append(".");
        push_decimal(&mut r, self.patch as u64);
        r
    }
}

/// Raw bytes read as their hexadecimal digits.
impl Text for Vec<u8> {
    open spec fn text(m: Seq<u8>) -> Seq<char> {
        hex_bytes_text(m)
    }

    fn to_text(&self) -> (r: String) {
        to_hex(self.as_slice())
    }
}

impl Text for MemFilter {
    open spec fn text(m: Seq<u8>) -> Seq<char> {
        "Mempool filter "@ + hex_bytes_text(m)
    }

    fn to_text(&self) -> (r: String) {
        let mut r = String::from_str("Mempool filter ");
        push_hex_bytes(&mut r, self.0.as_slice());
        r
    }
}

impl Text for TxPrefix {
    open spec fn text(m: Seq<u8>) -> Seq<char> {
        "Prefix: "@ + hex_bytes_text(m)
    }

    fn to_text(&self) -> (r: String) {
        let mut r = String::from_str("Prefix: ");
        push_hex_bytes(&mut r, self.0.as_slice());
        r
    }
}

/// A byte reads as its number.
impl Text for u8 {
    open spec fn text(m: u8) -> Seq<char> {
        decimal_text(m as nat)
    }

    fn to_text(&self) -> (r: String) {
        let mut r = String::new();
        push_decimal(&mut r, *self as u64);
        r
    }
}

/// The four octets of an IPv4 address in decimal digits with dots between
/// them.
pub open spec fn ipv4_text(ip: Seq<u8>) -> Seq<char> {
    decimal_text(ip[0] as nat) + "."@ + decimal_text(ip[1] as nat) + "."@ + decimal_text(
        ip[2] as nat,
    ) + "."@ + decimal_text(ip[3] as nat)
}

/// Groups of an IPv6 address in hexadecimal digits with colons between them.
pub open spec fn groups_text(groups: Seq<u16>) -> Seq<char>
    decreases groups.len(),
{
    if groups.len() == 0 {
        Seq::empty()
    } else if groups.len() == 1 {
        hex_text(groups[0] as nat)
    } else {
        groups_text(groups.drop_last()) + ":"@ + hex_text(groups.last() as nat)
    }
}

/// The runs of zero groups among the first `upto` groups: the longest one
/// (the first of them, where several are as long) and the one that the
/// scan is in, each as start and length. A length of zero says that there
/// is no such run.
pub open spec fn zero_runs(groups: Seq<u16>, upto: nat) -> ((nat, nat), (nat, nat))
    decreases upto,
{
    if upto == 0 {
        ((0, 0), (0, 0))
    } else {
        let (longest, current) = zero_runs(groups, (upto - 1) as nat);
        if groups[upto - 1] == 0 {
            let grown = (
                if current.1 == 0 {
                    (upto - 1) as nat
                } else {
                    current.0
                },
                current.1 + 1,
            );
            (
                if grown.1 > longest.1 {
                    grown
                } else {
                    longest
                },
                grown,
            )
        } else {
            (longest, (0, 0))
        }
    }
}

/// The `len` groups from `start` on are all zero, and there is at least one.
pub open spec fn is_zero_run(groups: Seq<u16>, start: int, len: int) -> bool {
    0 <= start && 0 < len && start + len <= groups.len() && forall|j: int|
        start <= j < start + len ==> groups[j] == 0
}

/// What the scan of [`zero_runs`] knows after `upto` groups.
spec fn scanned(groups: Seq<u16>, upto: nat) -> bool {
    let (longest, current) = zero_runs(groups, upto);
    &&& current.1 <= longest.1
    &&& current.1 > 0 ==> current.0 + current.1 == upto && is_zero_run(
        groups.take(upto as int),
        current.0 as int,
        current.1 as int,
    ) && (current.0 > 0 ==> groups[current.0 - 1] != 0)
    &&& current.1 == 0 ==> (upto > 0 ==> groups[upto - 1] != 0)
    &&& longest.1 > 0 ==> is_zero_run(groups.take(upto as int), longest.0 as int, longest.1 as int)
    &&& forall|s: int, l: int| #[trigger]
        is_zero_run(groups.take(upto as int), s, l) ==> l < longest.1 || (l == longest.1 && s
            >= longest.0)
}

/// The scan keeps what it knows.
proof fn lemma_scanned(groups: Seq<u16>, upto: nat)
    requires
        upto <= groups.len(),
    ensures
        scanned(groups, upto),
    decreases upto,
{
    if upto == 0 {
        assert forall|s: int, l: int| !#[trigger] is_zero_run(groups.take(0), s, l) by {}
    } else {
        let before = (upto - 1) as nat;
        lemma_scanned(groups, before);
        let (old_longest, old_current) = zero_runs(groups, before);
        let (longest, current) = zero_runs(groups, upto);
        let prefix = groups.take(upto as int);
        let shorter = groups.take(before as int);
        assert forall|s: int, l: int| #[trigger] is_zero_run(shorter, s, l) implies is_zero_run(
            prefix,
            s,
            l,
        ) by {
            assert forall|j: int| s <= j < s + l implies prefix[j] == 0 by {
                assert(shorter[j] == 0);
            }
        }
        assert forall|s: int, l: int| #[trigger]
            is_zero_run(prefix, s, l) implies l < longest.1 || (l == longest.1 && s
            >= longest.0) by {
            if s + l <= before {
                assert(is_zero_run(shorter, s, l)) by {
                    assert forall|j: int| s <= j < s + l implies shorter[j] == 0 by {
                        assert(prefix[j] == 0);
                    }
                }
            } else {
                assert(prefix[before as int] == 0);
                if s < current.0 {
                    assert(prefix[current.0 - 1] == 0);
                }
            }
        }
    }
}

/// What [`zero_runs`] finds in an address is a run of zero groups that no
/// other is longer than, and the first of those that are as long. It finds
/// none only where no group is zero.
pub proof fn lemma_longest_zero_run(groups: Seq<u16>)
    requires
        groups.len() == 8,
    ensures
        ({
            let (start, len) = zero_runs(groups, 8).0;
            &&& len > 0 ==> is_zero_run(groups, start as int, len as int)
            &&& len == 0 ==> forall|j: int| 0 <= j < 8 ==> groups[j] != 0
            &&& forall|s: int, l: int| #[trigger]
                is_zero_run(groups, s, l) ==> l < len || (l == len && s >= start)
        }),
{
    lemma_scanned(groups, 8);
    assert(groups.take(8) =~= groups);
    let (start, len) = zero_runs(groups, 8).0;
    if len == 0 {
        assert forall|j: int| 0 <= j < 8 implies groups[j] != 0 by {
            if groups[j] == 0 {
                assert(is_zero_run(groups, j, 1));
            }
        }
    }
}

/// The address stands for an IPv4 address: five zero groups and `ffff`.
pub open spec fn is_ipv4_mapped(groups: Seq<u16>) -> bool {
    groups[0] == 0 && groups[1] == 0 && groups[2] == 0 && groups[3] == 0 && groups[4] == 0
        && groups[5] == 0xFFFF
}

/// An IPv6 address in its short form: an address that stands for an IPv4
/// address as `::ffff:` and the dotted octets; any other with its longest
/// run of two or more zero groups written as `::`.
pub open spec fn ipv6_text(groups: Seq<u16>) -> Seq<char> {
    if is_ipv4_mapped(groups) {
        "::ffff:"@ + ipv4_text(
            seq![
                (groups[6] / 256) as u8,
                (groups[6] % 256) as u8,
                (groups[7] / 256) as u8,
                (groups[7] % 256) as u8,
            ],
        )
    } else {
        let longest = zero_runs(groups, 8).0;
        if longest.1 > 1 {
            groups_text(groups.subrange(0, longest.0 as int)) + "::"@ + groups_text(
                groups.subrange((longest.0 + longest.1) as int, 8),
            )
        } else {
            groups_text(groups)
        }
    }
}

/// The body of an onion address as the text that it spells, or, where it
/// is no UTF-8, as the list of its bytes.
pub open spec fn onion_text(body: Seq<u8>) -> Seq<char> {
    if valid_utf8(body) {
        decode_utf8(body)
    } else {
        "["@ + list_text::<u8>(body) + "]"@
    }
}

/// Appends the octets of an IPv4 address.
fn push_ipv4(out: &mut String, ip: &[u8; 4])
    ensures
        final(out)@ == old(out)@ + ipv4_text(ip@),
{
    push_decimal(out, ip[0] as u64);
    out.append(".");
    push_decimal(out, ip[1] as u64);
    out.append(".");
    push_decimal(out, ip[2] as u64);
    out.append(".");
    push_decimal(out, ip[3] as u64);
}

/// Appends the groups from `from` up to `to`, with colons between them.
fn push_groups(out: &mut String, groups: &[u16; 8], from: usize, to: usize)
    requires
        from <= to <= 8,
    ensures
        final(out)@ == old(out)@ + groups_text(groups@.subrange(from as int, to as int)),
{
    let ghost start = out@;
    let mut i: usize = from;
    assert(start + groups_text(groups@.subrange(from as int, from as int)) =~= start);
    while i < to
        invariant
            from <= i <= to <= 8,
            out@ == start + groups_text(groups@.subrange(from as int, i as int)),
        decreases to - i,
    {
        if i > from {
            out.append(":");
        }
        push_hex(out, groups[i]);
        proof {
            let next = groups@.subrange(from as int, i + 1);
            assert(next.last() == groups@[i as int]);
            assert(next.drop_last() =~= groups@.subrange(from as int, i as int));
            assert(out@ =~= start + groups_text(next));
        }
        i += 1;
    }
}

/// Finds the longest run of zero groups, the first of them where several
/// are as long: its start and its length.
fn longest_zero_run(groups: &[u16; 8]) -> (r: (usize, usize))
    ensures
        (r.0 as nat, r.1 as nat) == zero_runs(groups@, 8).0,
        r.0 + r.1 <= 8,
{
    let mut longest: (usize, usize) = (0, 0);
    let mut current: (usize, usize) = (0, 0);
    let mut i: usize = 0;
    while i < 8
        invariant
            i <= 8,
            ((longest.0 as nat, longest.1 as nat), (current.0 as nat, current.1 as nat))
                == zero_runs(groups@, i as nat),
            longest.0 + longest.1 <= i,
            current.0 + current.1 <= i,
        decreases 8 - i,
    {
        if groups[i] == 0 {
            if current.1 == 0 {
                current = (i, 1);
            } else {
                current = (current.0, current.1 + 1);
            }
            if current.1 > longest.1 {
                longest = current;
            }
        } else {
            current = (0, 0);
        }
        i += 1;
    }
    longest
}

/// Appends an IPv6 address in its short form.
fn push_ipv6(out: &mut String, groups: &[u16; 8])
    ensures
        final(out)@ == old(out)@ + ipv6_text(groups@),
{
    if groups[0] == 0 && groups[1] == 0 && groups[2] == 0 && groups[3] == 0 && groups[4] == 0
        && groups[5] == 0xFFFF {
        let octets: [u8; 4] = [
            (groups[6] / 256) as u8,
            (groups[6] % 256) as u8,
            (groups[7] / 256) as u8,
            (groups[7] % 256) as u8,
        ];
        assert(octets@ =~= seq![
            (groups@[6] / 256) as u8,
            (groups@[6] % 256) as u8,
            (groups@[7] / 256) as u8,
            (groups@[7] % 256) as u8,
        ]);
        out.append("::ffff:");
        push_ipv4(out, &octets);
    } else {
        let (start, len) = longest_zero_run(groups);
        if len > 1 {
            push_groups(out, groups, 0, start);
            out.append("::");
            push_groups(out, groups, start + len, 8);
        } else {
            push_groups(out, groups, 0, 8);
            assert(groups@.subrange(0, 8) =~= groups@);
        }
    }
}

/// Appends the body of an onion address.
fn push_onion(out: &mut String, body: &[u8; 56])
    ensures
        final(out)@ == old(out)@ + onion_text(body@),
{
    match text_from_utf8(slice_to_vec(body.as_slice())) {
        Some(text) => {
            proof {
                encode_utf8_decode_utf8(text@);
            }
            out.append(text.as_str());
        },
        None => {
            out.append("[");
            fmt_vec(out, body.as_slice());
            out.append("]");
            assert(seq_view(body@) =~= body@);
        },
    }
}

impl Text for Address {
    /// Address and port with a colon between them; an IPv6 address in
    /// square brackets.
    open spec fn text(m: AddressModel) -> Seq<char> {
        match m {
            AddressModel::Ipv4(ip, port) => ipv4_text(ip) + ":"@ + decimal_text(port as nat),
            AddressModel::Ipv6(groups, port) => "["@ + ipv6_text(groups) + "]:"@ + decimal_text(
                port as nat,
            ),
            AddressModel::OnionV3(body, port) => onion_text(body) + ":"@ + decimal_text(
                port as nat,
            ),
        }
    }

    fn to_text(&self) -> (r: String) {
        let mut r = String::new();
        match self {
            Address::Ipv4(ip, port) => {
                push_ipv4(&mut r, ip);
                r.append(":");
                push_decimal(&mut r, *port as u64);
            },
            Address::Ipv6(groups, port) => {
                r.append("[");
                push_ipv6(&mut r, groups);
                r.append("]:");
                push_decimal(&mut r, *port as u64);
            },
            Address::OnionV3(body, port) => {
                push_onion(&mut r, body);
                r.append(":");
                push_decimal(&mut r, *port as u64);
            },
        }
        r
    }
}

impl Text for ScanBlock {
    open spec fn text(m: ScanBlock) -> Seq<char> {
        Currency::text(m.currency) + " (v"@ + Version::text(m.version) + ") "@ + decimal_text(
            m.scan_height as nat,
        ) + "/"@ + decimal_text(m.height as nat)
    }

    fn to_text(&self) -> (r: String) {
        let mut r = self.currency.to_text();
        r.append(" (v");
        push_text(&mut r, &self.version);
        r.append(") ");
        push_decimal(&mut r, self.scan_height);
        r.append("/");
        push_decimal(&mut r, self.height);
        r
    }
}

impl Text for VersionMessage {
    open spec fn text(m: VersionMessageModel) -> Seq<char> {
        "Version "@ + Version::text(m.version) + " at "@ + decimal_text(m.time as nat)
            + " with nonce "@ + hex_bytes_text(m.nonce) + " and currencies:"@ + list_text::<
            ScanBlock,
        >(m.scan_blocks)
    }

    fn to_text(&self) -> (r: String) {
        let mut r = String::from_str("Version ");
        push_text(&mut r, &self.version);
        r.append(" at ");
        push_decimal(&mut r, self.time);
        r.append(" with nonce ");
        push_hex_bytes(&mut r, self.nonce.as_slice());
        r.append(" and currencies:");
        fmt_vec(&mut r, self.scan_blocks.as_slice());
        r
    }
}

impl Text for FiltersReq {
    open spec fn text(m: FiltersReq) -> Seq<char> {
        "req "@ + decimal_text(m.amount as nat) + " "@ + Currency::text(m.currency)
            + " filters from "@ + decimal_text(m.start as nat)
    }

    fn to_text(&self) -> (r: String) {
        let mut r = String::from_str("req ");
        push_decimal(&mut r, self.amount as u64);
        r.append(" ");
        push_text(&mut r, &self.currency);
        r.append(" filters from ");
        push_decimal(&mut r, self.start);
        r
    }
}

impl Text for Filter {
    open spec fn text(m: FilterModel) -> Seq<char> {
        "Block "@ + hex_bytes_text(m.block_id) + ", filter "@ + hex_bytes_text(m.filter)
    }

    fn to_text(&self) -> (r: String) {
        let mut r = String::from_str("Block ");
        push_hex_bytes(&mut r, self.block_id.as_slice());
        r.append(", filter ");
        push_hex_bytes(&mut r, self.filter.as_slice());
        r
    }
}

impl Text for FiltersResp {
    open spec fn text(m: FiltersRespModel) -> Seq<char> {
        "Filters for "@ + Currency::text(m.currency) + ":"@ + list_text::<Filter>(m.filters)
    }

    fn to_text(&self) -> (r: String) {
        let mut r = String::from_str("Filters for ");
        push_text(&mut r, &self.currency);
        r.append(":");
        fmt_vec(&mut r, self.filters.as_slice());
        r
    }
}

impl Text for FilterEvent {
    open spec fn text(m: FilterEventModel) -> Seq<char> {
        "New "@ + Currency::text(m.currency) + " filter at height "@ + decimal_text(
            m.height as nat,
        ) + " and id "@ + hex_bytes_text(m.block_id) + ", body: "@ + hex_bytes_text(m.filter)
    }

    fn to_text(&self) -> (r: String) {
        let mut r = String::from_str("New ");
        push_text(&mut r, &self.currency);
        r.append(" filter at height ");
        push_decimal(&mut r, self.height);
        r.append(" and id ");
        push_hex_bytes(&mut r, self.block_id.as_slice());
        r.append(", body: ");
        push_hex_bytes(&mut r, self.filter.as_slice());
        r
    }
}

/// One line of Bitcoin's fee scheme: a speed with its two estimates.
pub open spec fn fee_line(speed: Seq<char>, conservative: u64, economical: u64) -> Seq<char> {
    speed + "(conservative "@ + decimal_text(conservative as nat) + " sat/byte, econom "@
        + decimal_text(economical as nat) + " sat/byte)\n"@
}

/// Appends [`fee_line`].
fn push_fee_line(out: &mut String, speed: &str, conservative: u64, economical: u64)
    ensures
        final(out)@ == old(out)@ + fee_line(speed@, conservative, economical),
{
    out.append(speed);
    out.append("(conservative ");
    push_decimal(out, conservative);
    out.append(" sat/byte, econom ");
    push_decimal(out, economical);
    out.append(" sat/byte)\n");
}

impl Text for FeeBtc {
    /// Three lines: fast, moderate, cheap.
    open spec fn text(m: FeeBtc) -> Seq<char> {
        fee_line("Fast"@, m.fast_conserv, m.fast_econom) + fee_line(
            "Moderate"@,
            m.moderate_conserv,
            m.moderate_econom,
        ) + fee_line("Cheap"@, m.cheap_conserv, m.cheap_econom)
    }

    fn to_text(&self) -> (r: String) {
        let mut r = String::new();
        push_fee_line(&mut r, "Fast", self.fast_conserv, self.fast_econom);
        push_fee_line(&mut r, "Moderate", self.moderate_conserv, self.moderate_econom);
        push_fee_line(&mut r, "Cheap", self.cheap_conserv, self.cheap_econom);
        r
    }
}

impl Text for FeeOther {
    /// Three lines: fast, moderate, cheap.
    open spec fn text(m: FeeOther) -> Seq<char> {
        "Fast "@ + decimal_text(m.fast as nat) + " unit/byte\nModerate "@ + decimal_text(
            m.moderate as nat,
        ) + " unit/byte\nCheap "@ + decimal_text(m.cheap as nat) + " unit/byte\n"@
    }

    fn to_text(&self) -> (r: String) {
        let mut r = String::from_str("Fast ");
        push_decimal(&mut r, self.fast);
        r.append(" unit/byte\nModerate ");
        push_decimal(&mut r, self.moderate);
        r.append(" unit/byte\nCheap ");
        push_decimal(&mut r, self.cheap);
        r.append(" unit/byte\n");
        r
    }
}

impl Text for FeeResp {
    /// A line that names the currency, then the lines of the fees.
    open spec fn text(m: FeeResp) -> Seq<char> {
        match m {
            FeeResp::Btc((currency, fee)) => "Fee for "@ + Currency::text(currency) + "\n"@
                + FeeBtc::text(fee),
            FeeResp::Other((currency, fee)) => "Fee for "@ + Currency::text(currency) + "\n"@
                + FeeOther::text(fee),
        }
    }

    fn to_text(&self) -> (r: String) {
        let mut r = String::from_str("Fee for ");
        match self {
            FeeResp::Btc((currency, fee)) => {
                push_text(&mut r, currency);
                r.append("\n");
                push_text(&mut r, fee);
            },
            FeeResp::Other((currency, fee)) => {
                push_text(&mut r, currency);
                r.append("\n");
                push_text(&mut r, fee);
            },
        }
        r
    }
}

/// The name of the message with identifier `id`, or `unknown` where it has
/// none.
pub open spec fn message_name(id: u32) -> Seq<char> {
    match spec_name_from_id(id) {
        Some(name) => name,
        None => "unknown"@,
    }
}

impl Text for RejectMessage {
    open spec fn text(m: RejectMessageModel) -> Seq<char> {
        "reject "@ + RejectData::text(m.data) + " for "@ + message_name(m.id) + ", reason: "@
            + m.message
    }

    fn to_text(&self) -> (r: String) {
        let mut r = String::from_str("reject ");
        push_text(&mut r, &self.data);
        r.append(" for ");
        match Message::name_from_id(self.id) {
            Some(name) => r.append(name),
            None => r.append("unknown"),
        }
        r.append(", reason: ");
        r.append(self.message.as_str());
        r
    }
}

impl Text for RateReq {
    open spec fn text(m: RateReqModel) -> Seq<char> {
        Currency::text(m.currency) + " for "@ + list_text::<Fiat>(m.fiats)
    }

    fn to_text(&self) -> (r: String) {
        let mut r = self.currency.to_text();
        r.append(" for ");
        fmt_vec(&mut r, self.fiats.as_slice());
        r
    }
}

impl Text for Rate {
    /// The hundredths as a decimal fraction, without trailing zeros: `150`
    /// reads `1.5`, `100` reads `1`, `5` reads `0.05`.
    open spec fn text(m: Rate) -> Seq<char> {
        let whole = decimal_text((m.bits / 100) as nat);
        let cents = m.bits % 100;
        if cents == 0 {
            whole
        } else if cents % 10 == 0 {
            whole + "."@ + seq![digit_char(cents as int / 10)]
        } else {
            whole + "."@ + seq![digit_char(cents as int / 10)] + seq![
                digit_char(cents as int % 10),
            ]
        }
    }

    fn to_text(&self) -> (r: String) {
        let mut r = String::new();
        push_decimal(&mut r, self.bits / 100);
        let cents: u64 = self.bits % 100;
        if cents != 0 {
            r.append(".");
            r.append(digit_str((cents / 10) as u8));
            if cents % 10 != 0 {
                r.append(digit_str((cents % 10) as u8));
            }
        }
        r
    }
}

impl Text for FiatRate {
    open spec fn text(m: FiatRate) -> Seq<char> {
        Rate::text(m.rate) + " "@ + Fiat::text(m.fiat)
    }

    fn to_text(&self) -> (r: String) {
        let mut r = self.rate.to_text();
        r.append(" ");
        push_text(&mut r, &self.fiat);
        r
    }
}

impl Text for RateResp {
    open spec fn text(m: RateRespModel) -> Seq<char> {
        Currency::text(m.currency) + " rates: "@ + list_text::<FiatRate>(m.rates)
    }

    fn to_text(&self) -> (r: String) {
        let mut r = self.currency.to_text();
        r.append(" rates: ");
        fmt_vec(&mut r, self.rates.as_slice());
        r
    }
}

impl Text for FilterPrefixPair {
    /// The prefix as the list of its bytes, then the filter.
    open spec fn text(m: FilterPrefixPairModel) -> Seq<char> {
        "Prefix: TxPrefix(["@ + list_text::<u8>(m.prefix) + "]); "@ + MemFilter::text(m.filter)
    }

    fn to_text(&self) -> (r: String) {
        let mut r = String::from_str("Prefix: TxPrefix([");
        fmt_vec(&mut r, self.prefix.0.as_slice());
        assert(seq_view(self.prefix.0@) =~= self.prefix.0@);
        r.append("]); ");
        push_text(&mut r, &self.filter);
        r
    }
}

impl Text for MempoolChunkResp {
    /// The prefix, the number of transactions, and the transactions in
    /// hexadecimal digits.
    open spec fn text(m: MempoolChunkRespModel) -> Seq<char> {
        "Mempool chunk: "@ + TxPrefix::text(m.prefix) + ":"@ + decimal_text(m.txs.len()) + ":"@
            + list_text::<Vec<u8>>(m.txs)
    }

    fn to_text(&self) -> (r: String) {
        let mut r = String::from_str("Mempool chunk: ");
        push_text(&mut r, &self.prefix);
        r.append(":");
        push_decimal(&mut r, self.txs.len() as u64);
        r.append(":");
        fmt_vec(&mut r, self.txs.as_slice());
        r
    }
}

impl Text for Message {
    open spec fn text(m: MessageModel) -> Seq<char> {
        match m {
            MessageModel::Version(msg) => VersionMessage::text(msg),
            MessageModel::VersionAck => "verack"@,
            MessageModel::GetFilters(msg) => FiltersReq::text(msg),
            MessageModel::Filters(msg) => FiltersResp::text(msg),
            MessageModel::Filter(msg) => FilterEvent::text(msg),
            MessageModel::GetPeers => "reqpeers"@,
            MessageModel::Peers(list) => "peers: "@ + list_text::<Address>(list),
            MessageModel::GetFee(list) => "reqfee: "@ + list_text::<Currency>(list),
            MessageModel::Fee(list) => "fee: "@ + list_text::<FeeResp>(list),
            MessageModel::PeerIntroduce(list) => "peer announce: "@ + list_text::<Address>(list),
            MessageModel::Reject(msg) => RejectMessage::text(msg),
            MessageModel::Ping(nonce) => "ping "@ + hex_bytes_text(nonce),
            MessageModel::Pong(nonce) => "pong "@ + hex_bytes_text(nonce),
            MessageModel::GetRates(list) => "req rates: "@ + list_text::<RateReq>(list),
            MessageModel::Rates(list) => "rates: "@ + list_text::<RateResp>(list),
            MessageModel::FullFilterInv => "fullfilterinv"@,
            MessageModel::GetFullFilter => "getfullfilter"@,
            MessageModel::FullFilter(filter) => "fullfilter: "@ + MemFilter::text(filter),
            MessageModel::GetMemFilters => "getmemfilters"@,
            MessageModel::MemFilters(list) => "memfilters: "@ + list_text::<FilterPrefixPair>(
                list,
            ),
            MessageModel::GetMempool(list) => "getmempool: "@ + list_text::<TxPrefix>(list),
            MessageModel::MempoolChunk(msg) => "mempoolchunk: "@ + MempoolChunkResp::text(msg),
        }
    }

    fn to_text(&self) -> (r: String) {
        match self {
            Message::Version(msg) => msg.to_text(),
            Message::VersionAck => String::from_str("verack"),
            Message::GetFilters(msg) => msg.to_text(),
            Message::Filters(msg) => msg.to_text(),
            Message::Filter(msg) => msg.to_text(),
            Message::GetPeers => String::from_str("reqpeers"),
            Message::Peers(list) => listed("peers: ", list.as_slice()),
            Message::GetFee(list) => listed("reqfee: ", list.as_slice()),
            Message::Fee(list) => listed("fee: ", list.as_slice()),
            Message::PeerIntroduce(list) => listed("peer announce: ", list.as_slice()),
            Message::Reject(msg) => msg.to_text(),
            Message::Ping(nonce) => {
                let mut r = String::from_str("ping ");
                push_hex_bytes(&mut r, nonce.as_slice());
                r
            },
            Message::Pong(nonce) => {
                let mut r = String::from_str("pong ");
                push_hex_bytes(&mut r, nonce.as_slice());
                r
            },
            Message::GetRates(list) => listed("req rates: ", list.as_slice()),
            Message::Rates(list) => listed("rates: ", list.as_slice()),
            Message::FullFilterInv => String::from_str("fullfilterinv"),
            Message::GetFullFilter => String::from_str("getfullfilter"),
            Message::FullFilter(filter) => {
                let mut r = String::from_str("fullfilter: ");
                push_text(&mut r, filter);
                r
            },
            Message::GetMemFilters => String::from_str("getmemfilters"),
            Message::MemFilters(list) => listed("memfilters: ", list.as_slice()),
            Message::GetMempool(list) => listed("getmempool: ", list.as_slice()),
            Message::MempoolChunk(msg) => {
                let mut r = String::from_str("mempoolchunk: ");
                push_text(&mut r, msg);
                r
            },
        }
    }
}

/// A heading and the texts of the items behind it.
fn listed<T: Text>(heading: &str, items: &[T]) -> (r: String)
    ensures
        r@ == heading@ + list_text::<T>(seq_view(items@)),
{
    let mut r = String::from_str(heading);
    fmt_vec(&mut r, items);
    r
}

} // verus!
