use vstd::prelude::*;

use crate::{BACKSPACE, ENTER, LINE_FEED, SPACE};

verus! {

/// How many bytes a line holds at most.
pub const CAPACITY: usize = 32;

#[verifier::external_type_specification]
#[verifier::external_body]
#[verifier::reject_recursive_types(T)]
pub struct ExHeaplessVec<T, const N: usize>(heapless::Vec<T, N>);

/// The bytes that a 32-byte `heapless::Vec` holds, oldest first.
pub uninterp spec fn held(v: heapless::Vec<u8, 32>) -> Seq<u8>;

/// What `heapless::Vec::push` reports: `Err` hands the rejected byte back.
pub type Pushed = Result<(), u8>;

/// Relies on `heapless::Vec::new`: a new vector holds nothing.
#[verifier::external_body]
fn empty_line() -> (r: heapless::Vec<u8, 32>)
    ensures
        held(r) == Seq::<u8>::empty(),
{
    heapless::Vec::new()
}

/// Relies on `heapless::Vec::push`: below capacity the byte is appended,
/// at capacity it is handed back and the vector is left as it was.
#[verifier::external_body]
fn push_byte(v: &mut heapless::Vec<u8, 32>, b: u8) -> (r: Pushed)
    ensures
        r is Ok <==> held(*old(v)).len() < 32,
        r is Ok ==> held(*final(v)) == held(*old(v)).push(b),
        r is Err ==> r == Pushed::Err(b),
        r is Err ==> held(*final(v)) == held(*old(v)),
{
    v.push(b)
}

/// Relies on `heapless::Vec::pop`: removes and returns the newest byte, or
/// returns `None` and changes nothing when the vector is empty.
#[verifier::external_body]
fn pop_byte(v: &mut heapless::Vec<u8, 32>) -> (r: Option<u8>)
    ensures
        held(*old(v)).len() > 0 ==> r == Some(held(*old(v)).last()),
        held(*old(v)).len() > 0 ==> held(*final(v)) == held(*old(v)).drop_last(),
        held(*old(v)).len() == 0 ==> r is None,
        held(*old(v)).len() == 0 ==> held(*final(v)) == held(*old(v)),
{
    v.pop()
}

/// Relies on `heapless::Vec::clear`: afterwards the vector holds nothing.
#[verifier::external_body]
fn clear_line(v: &mut heapless::Vec<u8, 32>)
    ensures
        held(*final(v)) == Seq::<u8>::empty(),
{
    v.clear()
}

/// Relies on `heapless::Vec::as_slice`: the bytes held, oldest first, never
/// more than the capacity.
#[verifier::external_body]
fn line_bytes(v: &heapless::Vec<u8, 32>) -> (r: &[u8])
    ensures
        r@ == held(*v),
        r@.len() <= 32,
{
    v.as_slice()
}

/// In which order Enter echoes the line back.
#[derive(Clone, Copy, Debug, PartialEq, Eq, Structural)]
pub enum EnterEcho {
    /// Oldest byte first, as a terminal would show the line.
    Forward,
    /// Newest byte first: the line read backwards.
    Reversed,
}

/// A byte that did not fit: the line's length and capacity at that moment,
/// and the byte that was dropped.
#[derive(Clone, Copy, Debug, PartialEq, Eq, Structural)]
pub struct Overflow {
    pub len: usize,
    pub capacity: usize,
    pub byte: u8,
}

/// What handling one byte produced: the bytes to echo, in order, and the
/// overflow to report, if the byte was dropped.
#[derive(Debug, PartialEq, Eq)]
pub struct Reply {
    pub echo: Vec<u8>,
    pub overflow: Option<Overflow>,
}

/// The line as Enter echoes it.
pub open spec fn ordered(line: Seq<u8>, order: EnterEcho) -> Seq<u8> {
    match order {
        EnterEcho::Forward => line,
        EnterEcho::Reversed => Seq::new(line.len(), |k: int| line[line.len() - 1 - k]),
    }
}

/// Enter and Backspace edit the line; every other byte is typed into it.
pub open spec fn is_edit_key(b: u8) -> bool {
    b == ENTER || b == BACKSPACE
}

/// A typed byte is dropped because the line is full.
pub open spec fn overflows(line: Seq<u8>, b: u8) -> bool {
    !is_edit_key(b) && line.len() >= CAPACITY
}

/// The line after byte `b` is handled.
pub open spec fn next_line(line: Seq<u8>, b: u8) -> Seq<u8> {
    if b == ENTER {
        Seq::empty()
    } else if b == BACKSPACE {
        if line.len() > 0 {
            line.drop_last()
        } else {
            line
        }
    } else if line.len() < CAPACITY {
        line.push(b)
    } else {
        line
    }
}

/// The bytes echoed when `b` is handled on `line`.
pub open spec fn echo_of(line: Seq<u8>, order: EnterEcho, b: u8) -> Seq<u8> {
    if b == ENTER {
        ordered(line, order) + seq![LINE_FEED, ENTER]
    } else if b == BACKSPACE {
        if line.len() > 0 {
            seq![BACKSPACE, SPACE, BACKSPACE]
        } else {
            Seq::empty()
        }
    } else if line.len() < CAPACITY {
        seq![b]
    } else {
        Seq::empty()
    }
}

/// The line after each byte of `bytes` is handled in turn.
pub open spec fn line_after(line: Seq<u8>, bytes: Seq<u8>) -> Seq<u8>
    decreases bytes.len(),
{
    if bytes.len() == 0 {
        line
    } else {
        next_line(line_after(line, bytes.drop_last()), bytes.last())
    }
}

/// Typing bytes that are not edit keys into a line with room for all of
/// them appends each of them.
proof fn lemma_typed_appends(line: Seq<u8>, bytes: Seq<u8>)
    requires
        forall|k: int| 0 <= k < bytes.len() ==> !is_edit_key(#[trigger] bytes[k]),
        line.len() + bytes.len() <= CAPACITY,
    ensures
        line_after(line, bytes) == line + bytes,
    decreases bytes.len(),
{
    if bytes.len() > 0 {
        let init = bytes.drop_last();
        assert forall|k: int| 0 <= k < init.len() implies !is_edit_key(#[trigger] init[k]) by {
            assert(init[k] == bytes[k]);
        }
        lemma_typed_appends(line, init);
        assert(!is_edit_key(bytes[bytes.len() - 1]));
        assert((line + init).push(bytes.last()) =~= line + bytes);
    }
}

/// Starting from an empty line, typing fewer bytes than the capacity, none
/// of them Enter or Backspace, leaves exactly those bytes in the line, so
/// its length is the number of bytes typed.
pub proof fn lemma_typed_length(bytes: Seq<u8>)
    requires
        forall|k: int| 0 <= k < bytes.len() ==> !is_edit_key(#[trigger] bytes[k]),
        bytes.len() < CAPACITY,
    ensures
        line_after(Seq::empty(), bytes) == bytes,
        line_after(Seq::empty(), bytes).len() == bytes.len(),
{
    lemma_typed_appends(Seq::empty(), bytes);
    assert(Seq::<u8>::empty() + bytes =~= bytes);
}

/// Backspace on an empty line echoes nothing and leaves the line empty.
pub proof fn lemma_backspace_on_empty(order: EnterEcho)
    ensures
        next_line(Seq::empty(), BACKSPACE) == Seq::<u8>::empty(),
        echo_of(Seq::empty(), order, BACKSPACE) == Seq::<u8>::empty(),
{
}

/// Typing one byte more than the capacity, none of them Enter or Backspace,
/// fills the line with the first bytes; the last one overflows, is not
/// echoed and is not stored.
pub proof fn lemma_full_line_drops(bytes: Seq<u8>)
    requires
        forall|k: int| 0 <= k < bytes.len() ==> !is_edit_key(#[trigger] bytes[k]),
        bytes.len() == CAPACITY + 1,
    ensures
        line_after(Seq::empty(), bytes) == bytes.take(CAPACITY as int),
        line_after(Seq::empty(), bytes).len() == CAPACITY,
        overflows(line_after(Seq::empty(), bytes.drop_last()), bytes.last()),
        forall|order: EnterEcho|
            echo_of(line_after(Seq::empty(), bytes.drop_last()), order, #[trigger] bytes.last())
                == Seq::<u8>::empty(),
{
    let init = bytes.drop_last();
    assert forall|k: int| 0 <= k < init.len() implies !is_edit_key(#[trigger] init[k]) by {
        assert(init[k] == bytes[k]);
    }
    lemma_typed_appends(Seq::empty(), init);
    assert(Seq::<u8>::empty() + init =~= bytes.take(CAPACITY as int));
    assert(!is_edit_key(bytes[bytes.len() - 1]));
}

/// A bounded line of typed bytes with terminal-style echo and editing.
pub struct LineEditor {
    buf: heapless::Vec<u8, 32>,
    order: EnterEcho,
}

impl View for LineEditor {
    type V = Seq<u8>;

    closed spec fn view(&self) -> Seq<u8> {
        held(self.buf)
    }
}

impl LineEditor {
    /// The line never holds more than its capacity.
    pub open spec fn wf(&self) -> bool {
        self@.len() <= CAPACITY
    }

    /// The order in which this editor echoes a line on Enter.
    pub closed spec fn echo_order(&self) -> EnterEcho {
        self.order
    }

    /// An editor with an empty line.
    pub fn new(order: EnterEcho) -> (r: LineEditor)
        ensures
            r@ == Seq::<u8>::empty(),
            r.echo_order() == order,
            r.wf(),
    {
        LineEditor { buf: empty_line(), order }
    }

    /// The order in which Enter echoes the line.
    pub fn order(&self) -> (r: EnterEcho)
        ensures
            r == self.echo_order(),
    {
        self.order
    }

    /// How many bytes the line holds.
    pub fn len(&self) -> (r: usize)
        ensures
            r == self@.len(),
    {
        line_bytes(&self.buf).len()
    }

    /// The bytes of the line, oldest first.
    pub fn contents(&self) -> (r: Vec<u8>)
        ensures
            r@ == self@,
    {
        let s = line_bytes(&self.buf);
        let mut out: Vec<u8> = Vec::new();
        let mut k: usize = 0;
        while k < s.len()
            invariant
                k <= s@.len(),
                out@ == s@.take(k as int),
            decreases s@.len() - k,
        {
            out.push(s[k]);
            k = k + 1;
            assert(out@ =~= s@.take(k as int));
        }
        assert(out@ =~= s@);
        out
    }

    /// The line in the order Enter echoes it.
    fn echoed_line(&self) -> (r: Vec<u8>)
        ensures
            r@ == ordered(self@, self.echo_order()),
    {
        let s = line_bytes(&self.buf);
        let n = s.len();
        let mut out: Vec<u8> = Vec::new();
        let mut k: usize = 0;
        while k < n
            invariant
                n == s@.len(),
                k <= n,
                out@ == ordered(s@, self.order).take(k as int),
            decreases n - k,
        {
            let b = match self.order {
                EnterEcho::Forward => s[k],
                EnterEcho::Reversed => s[n - 1 - k],
            };
            out.push(b);
            k = k + 1;
            assert(out@ =~= ordered(s@, self.order).take(k as int));
        }
        assert(out@ =~= ordered(s@, self.order));
        out
    }

    /// Handles one received byte.
    ///
    /// Enter echoes the line followed by line feed and carriage return, then
    /// empties it. Backspace removes the newest byte and echoes
    /// backspace, space, backspace; on an empty line it does nothing. Any
    /// other byte is appended and echoed; when the line is full it is
    /// dropped, nothing is echoed and the overflow is reported.
    pub fn handle_byte(&mut self, byte: u8) -> (r: Reply)
        requires
            old(self).wf(),
        ensures
            final(self).wf(),
            final(self).echo_order() == old(self).echo_order(),
            final(self)@ == next_line(old(self)@, byte),
            r.echo@ == echo_of(old(self)@, old(self).echo_order(), byte),
            r.overflow == (if overflows(old(self)@, byte) {
                Some(Overflow { len: old(self)@.len() as usize, capacity: CAPACITY, byte })
            } else {
                None
            }),
    {
        if byte == ENTER {
            let mut echo = self.echoed_line();
            echo.push(LINE_FEED);
            echo.push(ENTER);
            clear_line(&mut self.buf);
            assert(echo@ =~= echo_of(old(self)@, old(self).echo_order(), byte));
            Reply { echo, overflow: None }
        } else if byte == BACKSPACE {
            match pop_byte(&mut self.buf) {
                Some(_) => {
                    let echo = vec![BACKSPACE, SPACE, BACKSPACE];
                    assert(echo@ =~= echo_of(old(self)@, old(self).echo_order(), byte));
                    Reply { echo, overflow: None }
                },
                None => {
                    let echo: Vec<u8> = Vec::new();
                    assert(echo@ =~= echo_of(old(self)@, old(self).echo_order(), byte));
                    Reply { echo, overflow: None }
                },
            }
        } else {
            let len = self.len();
            match push_byte(&mut self.buf, byte) {
                Ok(()) => {
                    let echo = vec![byte];
                    assert(echo@ =~= echo_of(old(self)@, old(self).echo_order(), byte));
                    Reply { echo, overflow: None }
                },
                Err(dropped) => {
                    let echo: Vec<u8> = Vec::new();
                    assert(echo@ =~= echo_of(old(self)@, old(self).echo_order(), byte));
                    Reply { echo, overflow: Some(Overflow { len, capacity: CAPACITY, byte: dropped }) }
                },
            }
        }
    }
}

} // verus!
