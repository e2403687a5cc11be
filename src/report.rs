use vstd::prelude::*;

verus! {

/// A frame opcode, with the codes of the WebSocket protocol.
#[derive(Clone, Copy, Debug, PartialEq, Eq, Structural)]
pub enum Opcode {
    Continuation,
    Text,
    Binary,
    Close,
    Ping,
    Pong,
    Other(u32),
}

impl Opcode {
    pub open spec fn code_of(self) -> u32 {
        match self {
            Opcode::Continuation => 0,
            Opcode::Text => 1,
            Opcode::Binary => 2,
            Opcode::Close => 8,
            Opcode::Ping => 9,
            Opcode::Pong => 10,
            Opcode::Other(c) => c,
        }
    }

    pub open spec fn is_named_code(c: u32) -> bool {
        c == 0 || c == 1 || c == 2 || c == 8 || c == 9 || c == 10
    }

    /// A well-formed opcode never keeps a named code under `Other`.
    pub open spec fn wf(self) -> bool {
        match self {
            Opcode::Other(c) => !Self::is_named_code(c),
            _ => true,
        }
    }

    pub fn from_code(c: u32) -> (op: Opcode)
        ensures
            op.wf(),
            op.code_of() == c,
    {
        match c {
            0 => Opcode::Continuation,
            1 => Opcode::Text,
            2 => Opcode::Binary,
            8 => Opcode::Close,
            9 => Opcode::Ping,
            10 => Opcode::Pong,
            _ => Opcode::Other(c),
        }
    }

    pub fn code(&self) -> (c: u32)
        ensures
            c == self.code_of(),
    {
        match self {
            Opcode::Continuation => 0,
            Opcode::Text => 1,
            Opcode::Binary => 2,
            Opcode::Close => 8,
            Opcode::Ping => 9,
            Opcode::Pong => 10,
            Opcode::Other(c) => *c,
        }
    }
}

/// The upper-case hexadecimal digit of `n`, for `n < 16`.
pub open spec fn hex_digit(n: u8) -> char {
    if n < 10 {
        (48 + n) as char
    } else {
        (55 + n) as char
    }
}

/// Each byte as two upper-case hexadecimal digits followed by a space.
pub open spec fn hex_rendering(b: Seq<u8>) -> Seq<char>
    decreases b.len(),
{
    if b.len() == 0 {
        seq![]
    } else {
        hex_rendering(b.drop_last()) + seq![
            hex_digit(b.last() / 16),
            hex_digit(b.last() % 16),
            ' ',
        ]
    }
}

proof fn lemma_hex_digit_injective(x: u8, y: u8)
    requires
        x < 16,
        y < 16,
        hex_digit(x) == hex_digit(y),
    ensures
        x == y,
{
    assert((hex_digit(x) as u32) == (if x < 10 { 48 + x } else { 55 + x }));
    assert((hex_digit(y) as u32) == (if y < 10 { 48 + y } else { 55 + y }));
}

/// Three characters per byte.
pub proof fn lemma_hex_rendering_len(a: Seq<u8>)
    ensures
        hex_rendering(a).len() == 3 * a.len(),
    decreases a.len(),
{
    if a.len() > 0 {
        lemma_hex_rendering_len(a.drop_last());
    }
}

/// The hexadecimal rendering is faithful to the payload, whatever it holds:
/// three characters per byte, and two payloads with the same rendering are
/// the same payload.
pub proof fn lemma_hex_rendering_faithful(a: Seq<u8>, b: Seq<u8>)
    ensures
        hex_rendering(a).len() == 3 * a.len(),
        hex_rendering(a) == hex_rendering(b) ==> a == b,
    decreases a.len(),
{
    lemma_hex_rendering_len(a);
    lemma_hex_rendering_len(b);
    if hex_rendering(a) == hex_rendering(b) {
        if a.len() == 0 {
            assert(a =~= b);
        } else {
            let ra = hex_rendering(a);
            let n = ra.len();
            let x = a.last();
            let y = b.last();
            assert(ra[n - 3] == hex_digit(x / 16) && ra[n - 3] == hex_digit(y / 16));
            assert(ra[n - 2] == hex_digit(x % 16) && ra[n - 2] == hex_digit(y % 16));
            lemma_hex_digit_injective(x / 16, y / 16);
            lemma_hex_digit_injective(x % 16, y % 16);
            assert(x == y);
            lemma_hex_rendering_len(a.drop_last());
            lemma_hex_rendering_len(b.drop_last());
            assert(hex_rendering(a.drop_last()) =~= ra.take(n - 3));
            assert(hex_rendering(b.drop_last()) =~= ra.take(n - 3));
            lemma_hex_rendering_faithful(a.drop_last(), b.drop_last());
            assert(a =~= a.drop_last().push(x));
            assert(b =~= b.drop_last().push(y));
        }
    }
}

fn hex_digit_exec(n: u8) -> (c: char)
    requires
        n < 16,
    ensures
        c == hex_digit(n),
{
    if n < 10 {
        (48 + n) as char
    } else {
        (55 + n) as char
    }
}

/// Relies on String::push: appends one character at the end.
#[verifier::external_body]
fn push_char(s: &mut String, c: char)
    ensures
        final(s)@ == old(s)@.push(c),
{
    s.push(c);
}

/// Renders each byte of `payload` as two upper-case hexadecimal digits and
/// a space.
pub fn render_hex(payload: &[u8]) -> (r: String)
    ensures
        r@ == hex_rendering(payload@),
{
    let mut out = String::new();
    let mut i: usize = 0;
    while i < payload.len()
        invariant
            i <= payload@.len(),
            out@ == hex_rendering(payload@.take(i as int)),
        decreases payload@.len() - i,
    {
        let b = payload[i];
        push_char(&mut out, hex_digit_exec(b / 16));
        push_char(&mut out, hex_digit_exec(b % 16));
        push_char(&mut out, ' ');
        proof {
            let next = payload@.take(i + 1);
            assert(next.drop_last() =~= payload@.take(i as int));
            assert(next.last() == b);
            assert(out@ =~= hex_rendering(next));
        }
        i = i + 1;
    }
    assert(payload@.take(i as int) =~= payload@);
    out
}

/// The text that a byte sequence encodes in UTF-8, or `None` where the bytes
/// are not valid UTF-8.
pub uninterp spec fn utf8_decoding(b: Seq<u8>) -> Option<Seq<char>>;

/// Relies on std::str::from_utf8: it succeeds exactly on valid UTF-8, and
/// then yields the encoded text; the empty slice is the empty text.
#[verifier::external_body]
fn decode_utf8(bytes: &[u8]) -> (r: Option<String>)
    ensures
        r is Some <==> utf8_decoding(bytes@) is Some,
        r is Some ==> utf8_decoding(bytes@) == Some(r.unwrap()@),
        bytes@.len() == 0 ==> r is Some && r.unwrap()@.len() == 0,
{
    match std::str::from_utf8(bytes) {
        Ok(t) => Some(t.to_string()),
        Err(_) => None,
    }
}

/// How an inbound frame is shown to the application.
#[derive(Debug)]
pub enum FrameReport {
    /// A text frame whose payload is valid UTF-8, decoded.
    Text(String),
    /// A text frame whose payload is not valid UTF-8, with its length.
    InvalidUtf8(usize),
    /// Any other frame: its opcode, length and hexadecimal rendering.
    Raw { opcode: Opcode, len: usize, hex: String },
}

/// The text view of an optional decoded string.
pub open spec fn text_view(d: Option<String>) -> Option<Seq<char>> {
    match d {
        Some(s) => Some(s@),
        None => None,
    }
}

/// What `describe_frame` reports for a text frame of `len` bytes whose
/// decoding is `decoded`.
pub open spec fn text_report_spec(len: usize, decoded: Option<Seq<char>>, r: FrameReport) -> bool {
    match decoded {
        Some(t) => r matches FrameReport::Text(s) && s@ == t,
        None => r == FrameReport::InvalidUtf8(len),
    }
}

/// The report for a text frame of `len` bytes, given the outcome of
/// decoding its payload: the text itself, or a decoding failure that
/// carries no partial text.
pub fn text_report(len: usize, decoded: Option<String>) -> (r: FrameReport)
    ensures
        text_report_spec(len, text_view(decoded), r),
{
    match decoded {
        Some(s) => FrameReport::Text(s),
        None => FrameReport::InvalidUtf8(len),
    }
}

/// Renders an inbound frame: a text frame is decoded as UTF-8; any other
/// frame is shown as its exact length and the hexadecimal rendering of every
/// payload byte.
pub fn describe_frame(opcode: Opcode, payload: &[u8]) -> (r: FrameReport)
    ensures
        opcode == Opcode::Text ==> text_report_spec(payload.len(), utf8_decoding(payload@), r),
        opcode != Opcode::Text ==> (r matches FrameReport::Raw { opcode: o, len, hex } && o
            == opcode && len == payload.len() && hex@ == hex_rendering(payload@)),
{
    match opcode {
        Opcode::Text => {
            let decoded = decode_utf8(payload);
            proof {
                assert(text_view(decoded) == utf8_decoding(payload@));
            }
            text_report(payload.len(), decoded)
        },
        _ => FrameReport::Raw { opcode, len: payload.len(), hex: render_hex(payload) },
    }
}

/// The label of a peer address or backend message: the text itself, a
/// marker for a missing one, or a marker where the bytes are not UTF-8.
pub fn label_of(decoded: Option<String>) -> (r: String)
    ensures
        match decoded {
            Some(t) => r@ == t@,
            None => r@ == "<utf8 err>"@,
        },
{
    match decoded {
        Some(t) => t,
        None => "<utf8 err>".to_string(),
    }
}

/// Labels an optional C string handed over by the backend.
pub fn peer_label(raw: Option<&[u8]>) -> (r: String)
    ensures
        match raw {
            None => r@ == "<null>"@,
            Some(b) => match utf8_decoding(b@) {
                Some(t) => r@ == t,
                None => r@ == "<utf8 err>"@,
            },
        },
{
    match raw {
        None => "<null>".to_string(),
        Some(b) => label_of(decode_utf8(b)),
    }
}

} // verus!
