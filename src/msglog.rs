use vstd::prelude::*;
use vstd::string::StringExecFns;
use circular_buffer::CircularBuffer;
use crate::text::{decimal, push_decimal};

verus! {

#[verifier::external_type_specification]
#[verifier::external_body]
#[verifier::reject_recursive_types(T)]
pub struct ExCircularBuffer<const N: usize, T>(CircularBuffer<N, T>);

/// Number of messages the log keeps; older ones are dropped first.
pub const LOG_CAPACITY: usize = 150;

/// The messages held by a log buffer, oldest first.
pub uninterp spec fn buffer_items(b: CircularBuffer<150, String>) -> Seq<Seq<char>>;

/// Relies on `CircularBuffer::new`: the new buffer is empty.
#[verifier::external_body]
fn buffer_new() -> (r: CircularBuffer<150, String>)
    ensures
        buffer_items(r) == Seq::<Seq<char>>::empty(),
{
    CircularBuffer::new()
}

/// Relies on `CircularBuffer::len`: the number of items held.
#[verifier::external_body]
fn buffer_len(b: &CircularBuffer<150, String>) -> (r: usize)
    ensures
        r as int == buffer_items(*b).len(),
{
    b.len()
}

/// Relies on `CircularBuffer::push_back`: the item goes to the back; when the buffer
/// already holds its capacity, the front item is dropped.
#[verifier::external_body]
fn buffer_push_back(b: &mut CircularBuffer<150, String>, item: String)
    ensures
        buffer_items(*old(b)).len() < 150 ==> buffer_items(*final(b)) == buffer_items(*old(b)).push(item@),
        buffer_items(*old(b)).len() >= 150 ==> buffer_items(*final(b)) == buffer_items(*old(b)).drop_first().push(item@),
{
    b.push_back(item);
}

/// Relies on `CircularBuffer::get`: the item at `i` from the front, if there is one.
#[verifier::external_body]
fn buffer_get(b: &CircularBuffer<150, String>, i: usize) -> (r: Option<&String>)
    ensures
        i < buffer_items(*b).len() ==> r is Some && r->0@ == buffer_items(*b)[i as int],
        i >= buffer_items(*b).len() ==> r is None,
{
    b.get(i)
}

/// What pushing one message does to the log's contents.
pub open spec fn pushed(items: Seq<Seq<char>>, m: Seq<char>) -> Seq<Seq<char>> {
    if items.len() < LOG_CAPACITY {
        items.push(m)
    } else {
        items.drop_first().push(m)
    }
}

/// The text of the `n`-th generated log message.
pub open spec fn generated_text(n: nat) -> Seq<char> {
    "Hello! This is message #"@ + decimal(n)
        + ". This is a long message because it contains a lot of data!"@
}

/// A log of display messages that keeps the most recent `LOG_CAPACITY` of them,
/// in the order they were added.
pub struct MessageLog {
    buf: CircularBuffer<150, String>,
}

impl View for MessageLog {
    type V = Seq<Seq<char>>;

    closed spec fn view(&self) -> Seq<Seq<char>> {
        buffer_items(self.buf)
    }
}

impl MessageLog {
    /// The log never holds more than its capacity.
    pub closed spec fn wf(&self) -> bool {
        buffer_items(self.buf).len() <= LOG_CAPACITY
    }

    /// An empty log.
    pub fn new() -> (r: MessageLog)
        ensures
            r.wf(),
            r@ == Seq::<Seq<char>>::empty(),
    {
        MessageLog { buf: buffer_new() }
    }

    /// Number of messages held.
    pub fn len(&self) -> (r: usize)
        requires
            self.wf(),
        ensures
            r as int == self@.len(),
    {
        buffer_len(&self.buf)
    }

    /// Appends a message, dropping the oldest one when the log is full.
    pub fn push(&mut self, message: String)
        requires
            old(self).wf(),
        ensures
            final(self).wf(),
            final(self)@ == pushed(old(self)@, message@),
    {
        buffer_push_back(&mut self.buf, message);
    }

    /// The message at position `i`, oldest first.
    pub fn get(&self, i: usize) -> (r: Option<&String>)
        requires
            self.wf(),
        ensures
            i < self@.len() ==> r is Some && r->0@ == self@[i as int],
            i >= self@.len() ==> r is None,
    {
        buffer_get(&self.buf, i)
    }

    /// The messages, oldest first.
    pub fn messages(&self) -> (r: Vec<String>)
        requires
            self.wf(),
        ensures
            r@.len() == self@.len(),
            forall|i: int| 0 <= i < r@.len() ==> #[trigger] r@[i]@ == self@[i],
    {
        let n = self.len();
        let mut out: Vec<String> = Vec::new();
        let mut i: usize = 0;
        while i < n
            invariant
                self.wf(),
                n as int == self@.len(),
                i <= n,
                out@.len() == i as int,
                forall|j: int| 0 <= j < i ==> #[trigger] out@[j]@ == self@[j],
            decreases n - i,
        {
            let m = self.get(i).unwrap();
            out.push(m.clone());
            i = i + 1;
        }
        out
    }

    /// Adds the numbered sample message whose number is the current length of the log.
    pub fn push_generated(&mut self)
        requires
            old(self).wf(),
        ensures
            final(self).wf(),
            final(self)@ == pushed(old(self)@, generated_text(old(self)@.len())),
    {
        let n = self.len();
        let mut s = String::new();
        s.append("Hello! This is message #");
        push_decimal(&mut s, n as u64);
        s.append(". This is a long message because it contains a lot of data!");
        assert(s@ =~= generated_text(n as nat));
        self.push(s);
    }
}

} // verus!
