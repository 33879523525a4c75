//! Framing: how one message is delimited in a stream of bytes.
//!
//! A frame is a header block, a blank line and a body. Header lines end in
//! CR LF. The line `Content-Length: <digits>` gives the number of body bytes;
//! other header lines are passed over. Where several length lines occur the
//! last one counts, and one length line that is not a decimal number that
//! fits `usize` spoils the whole block.
use vstd::prelude::*;

verus! {

/// The bytes of `Content-Length: `.
pub open spec fn length_prefix() -> Seq<u8> {
    seq![67u8, 111u8, 110u8, 116u8, 101u8, 110u8, 116u8, 45u8, 76u8, 101u8, 110u8, 103u8, 116u8,
        104u8, 58u8, 32u8]
}

/// The bytes CR LF CR LF that end a header block.
pub open spec fn terminator() -> Seq<u8> {
    seq![13u8, 10u8, 13u8, 10u8]
}

/// The decimal digits of `n`, most significant first, without leading zeros.
pub open spec fn decimal(n: nat) -> Seq<u8>
    decreases n,
{
    if n < 10 {
        seq![(48 + n) as u8]
    } else {
        decimal(n / 10).push((48 + n % 10) as u8)
    }
}

/// The number that a non-empty string of decimal digits denotes.
pub open spec fn parse_decimal(digits: Seq<u8>) -> Option<nat>
    decreases digits.len(),
{
    if digits.len() == 0 {
        None
    } else if !(48 <= digits.last() <= 57) {
        None
    } else if digits.len() == 1 {
        Some((digits.last() - 48) as nat)
    } else {
        match parse_decimal(digits.drop_last()) {
            Some(v) => Some((v * 10 + (digits.last() - 48)) as nat),
            None => None,
        }
    }
}

/// The header and body of one frame around `body`.
pub open spec fn frame(body: Seq<u8>) -> Seq<u8> {
    length_prefix() + decimal(body.len()) + terminator() + body
}

/// Whether CR LF CR LF stands at index `i` of `buf`.
pub open spec fn terminator_at(buf: Seq<u8>, i: int) -> bool {
    &&& 0 <= i
    &&& i + 4 <= buf.len()
    &&& buf[i] == 13
    &&& buf[i + 1] == 10
    &&& buf[i + 2] == 13
    &&& buf[i + 3] == 10
}

/// The index of the first CR LF CR LF in `buf` at or after `from`.
pub open spec fn first_terminator(buf: Seq<u8>, from: int) -> Option<int>
    decreases buf.len() - from,
{
    if from < 0 || from + 4 > buf.len() {
        None
    } else if terminator_at(buf, from) {
        Some(from)
    } else {
        first_terminator(buf, from + 1)
    }
}

/// Where the header block of `buf` ends: the index of the first
/// CR LF CR LF, if there is one.
pub open spec fn header_end(buf: Seq<u8>) -> Option<int> {
    first_terminator(buf, 0)
}

/// Whether CR LF stands at index `i` of `block`.
pub open spec fn line_break_at(block: Seq<u8>, i: int) -> bool {
    &&& 0 <= i
    &&& i + 2 <= block.len()
    &&& block[i] == 13
    &&& block[i + 1] == 10
}

/// The end of the line that starts at `from`: the index of the next CR LF,
/// or the length of the block where there is none.
pub open spec fn line_end(block: Seq<u8>, from: int) -> int
    decreases block.len() - from,
{
    if from < 0 || from >= block.len() {
        block.len() as int
    } else if line_break_at(block, from) {
        from
    } else {
        line_end(block, from + 1)
    }
}

/// A line ends at or after its start and within the block.
pub proof fn lemma_line_end_bounds(block: Seq<u8>, from: int)
    requires
        0 <= from <= block.len(),
    ensures
        from <= line_end(block, from) <= block.len(),
    decreases block.len() - from,
{
    if from < block.len() && !line_break_at(block, from) {
        lemma_line_end_bounds(block, from + 1);
    }
}

/// What one header line says about the length of the body.
pub enum LengthField {
    /// The line is no length line.
    Absent,
    /// The line is a length line whose value is no decimal `usize`.
    Invalid,
    /// The line is a length line with this value.
    Valid(usize),
}

/// Whether `line` begins with `Content-Length: `.
pub open spec fn is_length_line(line: Seq<u8>) -> bool {
    line.len() >= 16 && line.subrange(0, 16) == length_prefix()
}

/// What the header line `line` says.
pub open spec fn length_field(line: Seq<u8>) -> LengthField {
    if is_length_line(line) {
        match parse_decimal(line.subrange(16, line.len() as int)) {
            Some(n) => if n <= usize::MAX {
                LengthField::Valid(n as usize)
            } else {
                LengthField::Invalid
            },
            None => LengthField::Invalid,
        }
    } else {
        LengthField::Absent
    }
}

/// What the header lines of `block` from index `from` on say, given what the
/// lines before said.
pub open spec fn scan_lines(block: Seq<u8>, from: int, so_far: LengthField) -> LengthField
    decreases block.len() + 2 - from,
    via scan_lines_terminates
{
    if from < 0 || from >= block.len() {
        so_far
    } else {
        let end = line_end(block, from);
        match length_field(block.subrange(from, end)) {
            LengthField::Invalid => LengthField::Invalid,
            LengthField::Valid(n) => scan_lines(block, end + 2, LengthField::Valid(n)),
            LengthField::Absent => scan_lines(block, end + 2, so_far),
        }
    }
}

#[via_fn]
proof fn scan_lines_terminates(block: Seq<u8>, from: int, so_far: LengthField) {
    if 0 <= from < block.len() {
        lemma_line_end_bounds(block, from);
    }
}

/// What a header block says about the length of the body.
pub open spec fn content_length(block: Seq<u8>) -> LengthField {
    scan_lines(block, 0, LengthField::Absent)
}

/// What the start of a byte stream holds.
#[derive(Clone, Copy, Debug, PartialEq, Eq, Structural)]
pub enum FrameStatus {
    /// More bytes are needed: the header block or the body is not complete.
    Incomplete,
    /// A header block without a usable length; the first `consumed` bytes
    /// are to be dropped.
    Malformed { consumed: usize },
    /// One frame: its body is `buf[start..end]`, and the next frame starts
    /// at `end`.
    Complete { start: usize, end: usize },
}

/// What the start of `buf` holds.
pub open spec fn spec_decode_frame(buf: Seq<u8>) -> FrameStatus {
    match header_end(buf) {
        None => FrameStatus::Incomplete,
        Some(e) => match content_length(buf.subrange(0, e)) {
            LengthField::Valid(n) => if e + 4 + n <= buf.len() {
                FrameStatus::Complete { start: (e + 4) as usize, end: (e + 4 + n) as usize }
            } else {
                FrameStatus::Incomplete
            },
            _ => FrameStatus::Malformed { consumed: (e + 4) as usize },
        },
    }
}

/// Appends `Content-Length: ` to `out`.
fn push_length_prefix(out: &mut Vec<u8>)
    ensures
        final(out)@ == old(out)@ + length_prefix(),
{
    out.push(67u8);
    out.push(111u8);
    out.push(110u8);
    out.push(116u8);
    out.push(101u8);
    out.push(110u8);
    out.push(116u8);
    out.push(45u8);
    out.push(76u8);
    out.push(101u8);
    out.push(110u8);
    out.push(103u8);
    out.push(116u8);
    out.push(104u8);
    out.push(58u8);
    out.push(32u8);
}

/// Appends the decimal digits of `n` to `out`.
fn push_decimal(out: &mut Vec<u8>, n: usize)
    ensures
        final(out)@ == old(out)@ + decimal(n as nat),
    decreases n,
{
    if n >= 10 {
        push_decimal(out, n / 10);
    }
    let digit: u8 = (n % 10) as u8;
    out.push(48u8 + digit);
}

/// Puts `body` into a frame: the length header, a blank line, the body.
pub fn encode_frame(body: &[u8]) -> (r: Vec<u8>)
    ensures
        r@ == frame(body@),
{
    let mut out: Vec<u8> = Vec::new();
    push_length_prefix(&mut out);
    push_decimal(&mut out, body.len());
    out.push(13u8);
    out.push(10u8);
    out.push(13u8);
    out.push(10u8);
    out.extend_from_slice(body);
    out
}

/// The index of the first CR LF CR LF in `buf`.
fn find_header_end(buf: &[u8]) -> (r: Option<usize>)
    ensures
        match r {
            Some(e) => header_end(buf@) == Some(e as int) && e + 4 <= buf.len(),
            None => header_end(buf@) is None,
        },
{
    if buf.len() < 4 {
        return None;
    }
    let last: usize = buf.len() - 4;
    let mut i: usize = 0;
    while i <= last
        invariant
            last + 4 == buf.len(),
            i <= last + 1,
            header_end(buf@) == first_terminator(buf@, i as int),
        decreases last + 1 - i,
    {
        if buf[i] == 13u8 && buf[i + 1] == 10u8 && buf[i + 2] == 13u8 && buf[i + 3] == 10u8 {
            return Some(i);
        }
        i = i + 1;
    }
    None
}

/// The end of the header line of `buf[..e]` that starts at `from`.
fn find_line_end(buf: &[u8], e: usize, from: usize) -> (r: usize)
    requires
        from <= e <= buf.len(),
    ensures
        from <= r <= e,
        r == line_end(buf@.subrange(0, e as int), from as int),
{
    let ghost block = buf@.subrange(0, e as int);
    let mut i: usize = from;
    while i < e
        invariant
            from <= i <= e <= buf.len(),
            block == buf@.subrange(0, e as int),
            line_end(block, from as int) == line_end(block, i as int),
        decreases e - i,
    {
        if buf[i] == 13u8 && i + 1 < e && buf[i + 1] == 10u8 {
            return i;
        }
        i = i + 1;
    }
    i
}

/// Whether `buf[from..to]` begins with `Content-Length: `.
fn starts_with_length_prefix(buf: &[u8], from: usize, to: usize) -> (r: bool)
    requires
        from <= to <= buf.len(),
    ensures
        r == is_length_line(buf@.subrange(from as int, to as int)),
{
    let ghost line = buf@.subrange(from as int, to as int);
    if to - from < 16 {
        return false;
    }
    let r = buf[from] == 67u8 && buf[from + 1] == 111u8 && buf[from + 2] == 110u8 && buf[from + 3]
        == 116u8 && buf[from + 4] == 101u8 && buf[from + 5] == 110u8 && buf[from + 6] == 116u8
        && buf[from + 7] == 45u8 && buf[from + 8] == 76u8 && buf[from + 9] == 101u8 && buf[from
        + 10] == 110u8 && buf[from + 11] == 103u8 && buf[from + 12] == 116u8 && buf[from + 13]
        == 104u8 && buf[from + 14] == 58u8 && buf[from + 15] == 32u8;
    proof {
        let head = line.subrange(0, 16);
        if r {
            assert(head =~= length_prefix());
        }
    }
    r
}

/// A string of digits that denotes a number denotes no smaller one when
/// more digits follow.
proof fn lemma_parse_decimal_grows(digits: Seq<u8>, k: int)
    requires
        1 <= k <= digits.len(),
        parse_decimal(digits) is Some,
    ensures
        parse_decimal(digits.subrange(0, k)) is Some,
        parse_decimal(digits.subrange(0, k))->0 <= parse_decimal(digits)->0,
    decreases digits.len(),
{
    if k == digits.len() {
        assert(digits.subrange(0, k) =~= digits);
    } else {
        lemma_parse_decimal_grows(digits.drop_last(), k);
        assert(digits.drop_last().subrange(0, k) =~= digits.subrange(0, k));
    }
}

/// A string with a character that is no digit denotes no number.
proof fn lemma_parse_decimal_rejects(digits: Seq<u8>, k: int)
    requires
        0 <= k < digits.len(),
        !(48 <= digits[k] <= 57),
    ensures
        parse_decimal(digits) is None,
    decreases digits.len(),
{
    if k == digits.len() - 1 {
    } else {
        lemma_parse_decimal_rejects(digits.drop_last(), k);
    }
}

/// The value of the digits `buf[from..to]`.
fn parse_digits(buf: &[u8], from: usize, to: usize) -> (r: Option<usize>)
    requires
        from <= to <= buf.len(),
    ensures
        match r {
            Some(n) => parse_decimal(buf@.subrange(from as int, to as int)) == Some(n as nat),
            None => match parse_decimal(buf@.subrange(from as int, to as int)) {
                Some(n) => n > usize::MAX,
                None => true,
            },
        },
{
    let ghost digits = buf@.subrange(from as int, to as int);
    if from == to {
        return None;
    }
    let mut value: usize = 0;
    let mut i: usize = from;
    while i < to
        invariant
            from <= i <= to <= buf.len(),
            digits == buf@.subrange(from as int, to as int),
            i > from ==> parse_decimal(digits.subrange(0, i - from)) == Some(value as nat),
            i == from ==> value == 0,
        decreases to - i,
    {
        let c = buf[i];
        if c < 48u8 || c > 57u8 {
            proof {
                lemma_parse_decimal_rejects(digits, i - from);
            }
            return None;
        }
        let d: usize = (c - 48u8) as usize;
        let ghost shorter = digits.subrange(0, i - from);
        let ghost longer = digits.subrange(0, i + 1 - from);
        proof {
            assert(longer.drop_last() =~= shorter);
        }
        let next = match value.checked_mul(10) {
            Some(tens) => tens.checked_add(d),
            None => None,
        };
        match next {
            Some(v) => {
                value = v;
            },
            None => {
                proof {
                    if parse_decimal(digits) is Some {
                        lemma_parse_decimal_grows(digits, i + 1 - from);
                    }
                }
                return None;
            },
        }
        i = i + 1;
    }
    proof {
        assert(digits.subrange(0, to - from) =~= digits);
    }
    Some(value)
}

/// What the header line `buf[from..to]` says.
fn read_length_field(buf: &[u8], from: usize, to: usize) -> (r: LengthField)
    requires
        from <= to <= buf.len(),
    ensures
        r == length_field(buf@.subrange(from as int, to as int)),
{
    let ghost line = buf@.subrange(from as int, to as int);
    if starts_with_length_prefix(buf, from, to) {
        assert(line.subrange(16, line.len() as int) =~= buf@.subrange(from + 16, to as int));
        match parse_digits(buf, from + 16, to) {
            Some(n) => LengthField::Valid(n),
            None => LengthField::Invalid,
        }
    } else {
        LengthField::Absent
    }
}

/// What the header block `buf[..e]` says about the length of the body.
fn read_content_length(buf: &[u8], e: usize) -> (r: LengthField)
    requires
        e <= buf.len(),
    ensures
        r == content_length(buf@.subrange(0, e as int)),
{
    let ghost block = buf@.subrange(0, e as int);
    let mut so_far = LengthField::Absent;
    let mut from: usize = 0;
    while from < e
        invariant
            e <= buf.len(),
            block == buf@.subrange(0, e as int),
            content_length(block) == scan_lines(block, from as int, so_far),
            !(so_far is Invalid),
        decreases e - from,
    {
        let end = find_line_end(buf, e, from);
        assert(block.subrange(from as int, end as int) =~= buf@.subrange(from as int, end as int));
        match read_length_field(buf, from, end) {
            LengthField::Invalid => {
                return LengthField::Invalid;
            },
            LengthField::Valid(n) => {
                so_far = LengthField::Valid(n);
            },
            LengthField::Absent => {},
        }
        if e - end < 2 {
            assert(scan_lines(block, end + 2, so_far) == so_far);
            return so_far;
        }
        from = end + 2;
    }
    so_far
}

/// Looks for one frame at the start of `buf`.
///
/// The outcome is `Incomplete` until the blank line that ends the header
/// block and all the bytes of the body are there. A header block without a
/// usable length is reported as `Malformed`, with the number of bytes to
/// drop, so that reading goes on behind it.
pub fn decode_frame(buf: &[u8]) -> (r: FrameStatus)
    ensures
        r == spec_decode_frame(buf@),
{
    match find_header_end(buf) {
        None => FrameStatus::Incomplete,
        Some(e) => {
            match read_content_length(buf, e) {
                LengthField::Valid(n) => {
                    if n <= buf.len() - (e + 4) {
                        FrameStatus::Complete { start: e + 4, end: e + 4 + n }
                    } else {
                        FrameStatus::Incomplete
                    }
                },
                _ => FrameStatus::Malformed { consumed: e + 4 },
            }
        },
    }
}

/// The digits of a number are decimal digits, and there is at least one.
pub proof fn lemma_decimal_digits(n: nat)
    ensures
        decimal(n).len() >= 1,
        forall|i: int| 0 <= i < decimal(n).len() ==> 48 <= #[trigger] decimal(n)[i] <= 57,
    decreases n,
{
    if n >= 10 {
        lemma_decimal_digits(n / 10);
    }
}

/// Reading the digits of a number gives the number back.
pub proof fn lemma_parse_decimal_inverts(n: nat)
    ensures
        parse_decimal(decimal(n)) == Some(n),
    decreases n,
{
    if n >= 10 {
        lemma_parse_decimal_inverts(n / 10);
        lemma_decimal_digits(n / 10);
        assert(decimal(n).drop_last() =~= decimal(n / 10));
    }
}

/// Where no CR stands before index `e` and CR LF CR LF stands at `e`, the
/// search from any index up to `e` finds `e`.
proof fn lemma_first_terminator(buf: Seq<u8>, from: int, e: int)
    requires
        0 <= from <= e,
        terminator_at(buf, e),
        forall|i: int| from <= i < e ==> buf[i] != 13,
    ensures
        first_terminator(buf, from) == Some(e),
    decreases e - from,
{
    if from < e {
        lemma_first_terminator(buf, from + 1, e);
    }
}

/// A block without CR is one line.
proof fn lemma_single_line(block: Seq<u8>, from: int)
    requires
        0 <= from <= block.len(),
        forall|i: int| from <= i < block.len() ==> block[i] != 13,
    ensures
        line_end(block, from) == block.len(),
    decreases block.len() - from,
{
    if from < block.len() {
        lemma_single_line(block, from + 1);
    }
}

/// Decoding finds a frame that was encoded, whatever follows it: the body
/// that comes out is the body that went in, and the next frame starts right
/// behind it.
pub proof fn lemma_frame_round_trip(body: Seq<u8>, rest: Seq<u8>)
    requires
        frame(body).len() + rest.len() <= usize::MAX,
    ensures
        spec_decode_frame(frame(body) + rest) == (FrameStatus::Complete {
            start: (frame(body).len() - body.len()) as usize,
            end: frame(body).len() as usize,
        }),
        (frame(body) + rest).subrange(frame(body).len() - body.len(), frame(body).len() as int)
            == body,
{
    let n = body.len();
    let header = length_prefix() + decimal(n);
    let buf = frame(body) + rest;
    let e = header.len() as int;
    lemma_decimal_digits(n);
    lemma_parse_decimal_inverts(n);
    // The header holds no CR, and the blank line stands right behind it.
    assert forall|i: int| 0 <= i < e implies buf[i] != 13 by {
        if i < 16 {
            assert(buf[i] == length_prefix()[i]);
        } else {
            assert(buf[i] == decimal(n)[i - 16]);
        }
    }
    assert(terminator_at(buf, e));
    lemma_first_terminator(buf, 0, e);
    // The header block is one line, and that line gives the length.
    let block = buf.subrange(0, e);
    assert(block =~= header);
    lemma_single_line(block, 0);
    assert(block.subrange(0, e) =~= header);
    assert(header.subrange(0, 16) =~= length_prefix());
    assert(header.subrange(16, e) =~= decimal(n));
    assert(length_field(header) == LengthField::Valid(n as usize));
    assert(scan_lines(block, e + 2, LengthField::Valid(n as usize)) == LengthField::Valid(
        n as usize,
    ));
    assert(content_length(block) == LengthField::Valid(n as usize));
    // The body follows the blank line.
    assert(buf.subrange(e + 4, e + 4 + n) =~= body);
}

/// The bytes that were read from the adapter and not yet taken apart.
pub struct FrameReader {
    buffer: Vec<u8>,
}

/// What was taken off the front of the stream.
#[derive(Debug, Clone, PartialEq, Eq)]
pub enum Frame {
    /// The body of one frame.
    Body(Vec<u8>),
    /// A header block without a usable length, which was dropped.
    Malformed,
}

/// What a [`Frame`] holds.
pub enum FrameView {
    Body(Seq<u8>),
    Malformed,
}

impl View for Frame {
    type V = FrameView;

    open spec fn view(&self) -> FrameView {
        match self {
            Frame::Body(b) => FrameView::Body(b@),
            Frame::Malformed => FrameView::Malformed,
        }
    }
}

/// The view of an optional frame.
pub open spec fn opt_frame_view(f: Option<Frame>) -> Option<FrameView> {
    match f {
        Some(x) => Some(x@),
        None => None,
    }
}

/// What is taken off the front of `buf`, and what stays behind. Nothing is
/// taken while the first frame is incomplete.
pub open spec fn spec_next_frame(buf: Seq<u8>) -> (Seq<u8>, Option<FrameView>) {
    match spec_decode_frame(buf) {
        FrameStatus::Incomplete => (buf, None),
        FrameStatus::Malformed { consumed } => (
            buf.skip(consumed as int),
            Some(FrameView::Malformed),
        ),
        FrameStatus::Complete { start, end } => (
            buf.skip(end as int),
            Some(FrameView::Body(buf.subrange(start as int, end as int))),
        ),
    }
}

impl View for FrameReader {
    type V = Seq<u8>;

    closed spec fn view(&self) -> Seq<u8> {
        self.buffer@
    }
}

impl FrameReader {
    /// A reader that holds no bytes.
    pub fn new() -> (r: FrameReader)
        ensures
            r@ == Seq::<u8>::empty(),
    {
        FrameReader { buffer: Vec::new() }
    }

    /// Takes in bytes that were read from the adapter.
    pub fn push(&mut self, bytes: &[u8])
        ensures
            final(self)@ == old(self)@ + bytes@,
    {
        self.buffer.extend_from_slice(bytes);
    }

    /// The number of bytes that wait to be taken apart.
    pub fn len(&self) -> (r: usize)
        ensures
            r == self@.len(),
    {
        self.buffer.len()
    }

    /// Takes the first frame off the bytes held, if it is complete.
    pub fn next_frame(&mut self) -> (r: Option<Frame>)
        ensures
            (final(self)@, opt_frame_view(r)) == spec_next_frame(old(self)@),
            r is Some ==> final(self)@.len() < old(self)@.len(),
    {
        if self.buffer.len() == 0 {
            return None;
        }
        match decode_frame(self.buffer.as_slice()) {
            FrameStatus::Incomplete => None,
            FrameStatus::Malformed { consumed } => {
                proof {
                    lemma_decode_frame_bounds(self.buffer@);
                }
                let rest = self.buffer.split_off(consumed);
                self.buffer = rest;
                Some(Frame::Malformed)
            },
            FrameStatus::Complete { start, end } => {
                proof {
                    lemma_decode_frame_bounds(self.buffer@);
                }
                let rest = self.buffer.split_off(end);
                let mut body = self.buffer.split_off(start);
                assert(body@ =~= old(self)@.subrange(start as int, end as int));
                self.buffer = rest;
                Some(Frame::Body(body))
            },
        }
    }
}

/// What decoding takes off the front of a buffer lies within the buffer and
/// is at least the four bytes that end a header block.
pub proof fn lemma_decode_frame_bounds(buf: Seq<u8>)
    requires
        buf.len() <= usize::MAX,
    ensures
        match spec_decode_frame(buf) {
            FrameStatus::Incomplete => true,
            FrameStatus::Malformed { consumed } => 4 <= consumed <= buf.len(),
            FrameStatus::Complete { start, end } => 4 <= start <= end <= buf.len(),
        },
{
    lemma_first_terminator_bounds(buf, 0);
}

/// A terminator that is found lies within the buffer, at or after the index
/// from which it was looked for.
proof fn lemma_first_terminator_bounds(buf: Seq<u8>, from: int)
    requires
        0 <= from,
    ensures
        match first_terminator(buf, from) {
            Some(e) => from <= e && e + 4 <= buf.len() && terminator_at(buf, e),
            None => true,
        },
    decreases buf.len() - from,
{
    if from + 4 <= buf.len() && !terminator_at(buf, from) {
        lemma_first_terminator_bounds(buf, from + 1);
    }
}

/// A reader that holds one encoded frame, and whatever follows it, hands out
/// the body that was encoded and keeps what follows.
pub proof fn lemma_next_frame_round_trip(body: Seq<u8>, rest: Seq<u8>)
    requires
        frame(body).len() + rest.len() <= usize::MAX,
    ensures
        spec_next_frame(frame(body) + rest) == (rest, Some(FrameView::Body(body))),
{
    lemma_frame_round_trip(body, rest);
    let buf = frame(body) + rest;
}

} // verus!
