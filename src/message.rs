use vstd::prelude::*;

verus! {

/// A message to or from the cloud, without the identity of its thing.
#[derive(Debug)]
pub struct PartialThingMessage {
    pub topic: String,
    pub msg: String,
}

impl Clone for PartialThingMessage {
    fn clone(&self) -> (r: Self)
        ensures
            r == *self,
    {
        PartialThingMessage { topic: self.topic.clone(), msg: self.msg.clone() }
    }
}

pub open spec fn is_ascii_char(c: char) -> bool {
    (c as u32) < 128
}

/// The characters of `s` that are ASCII, in order.
pub open spec fn ascii_only(s: Seq<char>) -> Seq<char> {
    s.filter(|c: char| is_ascii_char(c))
}

/// Relies on `String::push`: appends one character.
#[verifier::external_body]
fn push_char(s: &mut String, c: char)
    ensures
        final(s)@ == old(s)@.push(c),
{
    s.push(c)
}

/// Keeps the ASCII characters of `s` and drops the others.
pub fn filter_ascii(s: &str) -> (r: String)
    ensures
        r@ == ascii_only(s@),
{
    let mut out = String::new();
    let n = s.unicode_len();
    let mut i: usize = 0;
    while i < n
        invariant
            n == s@.len(),
            i <= n,
            out@ == ascii_only(s@.take(i as int)),
        decreases n - i,
    {
        let c = s.get_char(i);
        proof {
            assert(s@.take(i + 1) == s@.take(i as int).push(c));
            s@.take(i as int).lemma_filter_push(c, |c: char| is_ascii_char(c));
        }
        if (c as u32) < 128 {
            push_char(&mut out, c);
        }
        i = i + 1;
    }
    proof {
        assert(s@.take(n as int) == s@);
    }
    out
}

} // verus!
