//! Keys that identify namespaces and devices, and their textual form.
use vstd::prelude::*;

verus! {

/// The lowercase hexadecimal digit of a value below sixteen.
pub open spec fn hex_digit(v: u8) -> char {
    if v < 10 {
        (('0' as u8) + v) as char
    } else {
        (('a' as u8) + (v - 10)) as char
    }
}

/// Two lowercase hexadecimal digits per byte, high nibble first.
pub open spec fn hex_text(b: Seq<u8>) -> Seq<char>
    decreases b.len(),
{
    if b.len() == 0 {
        Seq::empty()
    } else {
        hex_text(b.drop_last()) + seq![hex_digit(b.last() / 16), hex_digit(b.last() % 16)]
    }
}

/// Lowercase hexadecimal digit of `v`, which is below sixteen.
pub fn hex_char(v: u8) -> (r: char)
    requires
        v < 16,
    ensures
        r == hex_digit(v),
{
    if v < 10 {
        ((48u8 + v) as char)
    } else {
        ((97u8 + (v - 10)) as char)
    }
}

/// Relies on String::push: the character is appended at the end.
#[verifier::external_body]
pub(crate) fn push_char(s: &mut String, c: char)
    ensures
        final(s)@ == old(s)@.push(c),
{
    s.push(c)
}

/// Lowercase hexadecimal text of a byte sequence.
pub fn to_hex(bytes: &[u8]) -> (r: String)
    ensures
        r@ == hex_text(bytes@),
{
    let mut out = String::new();
    let mut i: usize = 0;
    while i < bytes.len()
        invariant
            i <= bytes@.len(),
            out@ == hex_text(bytes@.subrange(0, i as int)),
        decreases bytes@.len() - i,
    {
        let b = bytes[i];
        push_char(&mut out, hex_char(b / 16));
        push_char(&mut out, hex_char(b % 16));
        proof {
            let next = bytes@.subrange(0, i + 1);
            assert(next.drop_last() =~= bytes@.subrange(0, i as int));
            assert(next.last() == b);
        }
        i = i + 1;
    }
    assert(bytes@.subrange(0, i as int) =~= bytes@);
    out
}

/// The quoted and escaped form in which `{:?}` writes a text.
pub uninterp spec fn debug_str(s: Seq<char>) -> Seq<char>;

/// Relies on the `Debug` impl of `str`: the text in double quotes, with
/// quotes, backslashes and control characters escaped; the result depends
/// on the characters alone.
#[verifier::external_body]
pub(crate) fn debug_string(s: &str) -> (r: String)
    ensures
        r@ == debug_str(s@),
{
    format!("{:?}", s)
}

/// The decimal digit of a value below ten.
pub open spec fn decimal_digit(d: nat) -> char {
    ((48 + d) as u8) as char
}

/// The decimal text of a natural number, without leading zeros.
pub open spec fn decimal_text(n: nat) -> Seq<char>
    decreases n,
{
    if n < 10 {
        seq![decimal_digit(n)]
    } else {
        decimal_text(n / 10).push(decimal_digit(n % 10))
    }
}

/// The decimal text of an integer, with a minus sign when it is negative.
pub open spec fn signed_text(n: int) -> Seq<char> {
    if n < 0 {
        seq!['-'] + decimal_text((-n) as nat)
    } else {
        decimal_text(n as nat)
    }
}

fn digit_char(d: u64) -> (r: char)
    requires
        d < 10,
    ensures
        r == decimal_digit(d as nat),
{
    (48u8 + d as u8) as char
}

/// The decimal text of `v`.
pub fn decimal(v: u64) -> (r: String)
    ensures
        r@ == decimal_text(v as nat),
    decreases v,
{
    if v < 10 {
        let mut s = String::new();
        push_char(&mut s, digit_char(v));
        s
    } else {
        let mut s = decimal(v / 10);
        push_char(&mut s, digit_char(v % 10));
        s
    }
}

/// The decimal text of `v`, with a minus sign when it is negative.
pub fn signed_decimal(v: i64) -> (r: String)
    ensures
        r@ == signed_text(v as int),
{
    if v < 0 {
        let m: u64 = (0i128 - v as i128) as u64;
        let d = decimal(m);
        let mut s = String::new();
        push_char(&mut s, '-');
        s.append(d.as_str());
        assert(s@ =~= seq!['-'] + d@);
        s
    } else {
        decimal(v as u64)
    }
}

/// The numbers of `b` in decimal, separated by a comma and a space.
pub open spec fn byte_list_text(b: Seq<u8>) -> Seq<char>
    decreases b.len(),
{
    if b.len() == 0 {
        Seq::empty()
    } else if b.len() == 1 {
        decimal_text(b[0] as nat)
    } else {
        byte_list_text(b.drop_last()) + seq![',', ' '] + decimal_text(b.last() as nat)
    }
}

/// The form in which `{:?}` writes a byte array: `[1, 2, 3]`.
pub open spec fn bytes_debug_text(b: Seq<u8>) -> Seq<char> {
    seq!['['] + byte_list_text(b) + seq![']']
}

/// The form in which `{:?}` writes a byte array.
pub fn bytes_debug(bytes: &[u8]) -> (r: String)
    ensures
        r@ == bytes_debug_text(bytes@),
{
    let mut out = String::new();
    let mut i: usize = 0;
    while i < bytes.len()
        invariant
            i <= bytes@.len(),
            out@ == byte_list_text(bytes@.subrange(0, i as int)),
        decreases bytes@.len() - i,
    {
        let d = decimal(bytes[i] as u64);
        let ghost prev = out@;
        if i > 0 {
            push_char(&mut out, ',');
            push_char(&mut out, ' ');
        }
        out.append(d.as_str());
        proof {
            let next = bytes@.subrange(0, i + 1);
            assert(next.drop_last() =~= bytes@.subrange(0, i as int));
            assert(next.last() == bytes@[i as int]);
            if i == 0 {
                assert(out@ =~= byte_list_text(next));
            } else {
                assert(out@ =~= byte_list_text(next));
            }
        }
        i = i + 1;
    }
    assert(bytes@.subrange(0, i as int) =~= bytes@);
    let mut r = String::new();
    push_char(&mut r, '[');
    r.append(out.as_str());
    push_char(&mut r, ']');
    assert(r@ =~= bytes_debug_text(bytes@));
    r
}

/// The public key of a replicated namespace, which names a workspace.
#[derive(Clone, Copy, Debug, PartialEq, Eq, Hash)]
pub struct WorkspacePublicKey {
    pub bytes: [u8; 32],
}

/// The identifier under which the document subsystem opens a namespace.
#[derive(Clone, Copy, Debug, PartialEq, Eq, Hash)]
pub struct NamespaceId {
    pub bytes: [u8; 32],
}

impl WorkspacePublicKey {
    /// The namespace that this key names: the same 32 bytes.
    pub fn namespace_id(&self) -> (r: NamespaceId)
        ensures
            r.bytes@ == self.bytes@,
    {
        NamespaceId { bytes: self.bytes }
    }

    /// The form in which `{:?}` writes the key.
    pub open spec fn debug_text(&self) -> Seq<char> {
        "WorkspacePublicKey { bytes: "@ + bytes_debug_text(self.bytes@) + " }"@
    }

    /// The form in which `{:?}` writes the key.
    pub fn debug(&self) -> (r: String)
        ensures
            r@ == self.debug_text(),
    {
        let b = bytes_debug(&self.bytes);
        let mut s = String::from_str("WorkspacePublicKey { bytes: ");
        s.append(b.as_str());
        s.append(" }");
        proof {
            reveal_strlit("WorkspacePublicKey { bytes: ");
            reveal_strlit(" }");
        }
        s
    }

    /// Lowercase hexadecimal text of the key.
    pub fn to_hex(&self) -> (r: String)
        ensures
            r@ == hex_text(self.bytes@),
    {
        to_hex(&self.bytes)
    }
}

impl NamespaceId {
    /// The public key that this identifier holds: the same 32 bytes.
    pub fn public_key(&self) -> (r: WorkspacePublicKey)
        ensures
            r.bytes@ == self.bytes@,
    {
        WorkspacePublicKey { bytes: self.bytes }
    }
}

/// A stable reference to a device, independent of whether it can be reached.
#[derive(Clone, Debug, PartialEq, Eq)]
pub enum DeviceIdentifier {
    /// The device's public key.
    PublicKey(WorkspacePublicKey),
    /// Another stable handle, such as a name given to the device.
    Handle(String),
}

impl DeviceIdentifier {
    /// The identifier as text: a key in hexadecimal, a handle as it is.
    pub open spec fn text_spec(&self) -> Seq<char> {
        match self {
            DeviceIdentifier::PublicKey(k) => hex_text(k.bytes@),
            DeviceIdentifier::Handle(h) => h@,
        }
    }

    /// The form in which `{:?}` writes the identifier.
    pub open spec fn debug_text(&self) -> Seq<char> {
        match self {
            DeviceIdentifier::PublicKey(k) => "PublicKey("@ + k.debug_text() + ")"@,
            DeviceIdentifier::Handle(h) => "Handle("@ + debug_str(h@) + ")"@,
        }
    }

    /// The form in which `{:?}` writes the identifier.
    pub fn debug(&self) -> (r: String)
        ensures
            r@ == self.debug_text(),
    {
        let (mut s, inner) = match self {
            DeviceIdentifier::PublicKey(k) => (String::from_str("PublicKey("), k.debug()),
            DeviceIdentifier::Handle(h) => (String::from_str("Handle("), debug_string(h.as_str())),
        };
        s.append(inner.as_str());
        s.append(")");
        proof {
            reveal_strlit("PublicKey(");
            reveal_strlit("Handle(");
            reveal_strlit(")");
        }
        s
    }

    /// The identifier as text.
    pub fn text(&self) -> (r: String)
        ensures
            r@ == self.text_spec(),
    {
        match self {
            DeviceIdentifier::PublicKey(k) => k.to_hex(),
            DeviceIdentifier::Handle(h) => h.clone(),
        }
    }
}

} // verus!
