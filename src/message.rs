use vstd::prelude::*;
use vstd::utf8::*;

use crate::codec::{framed, get_framed, le_bytes, le_value, lemma_le_round_trip, lemma_take_framed, put_framed, put_u64, take_framed};

verus! {

/// A value that travels as a payload. `model` is its mathematical value,
/// `wire` the bytes it is written as, `take` reads one off the front of a byte
/// sequence, and `fits` says that every length in it fits the length field.
pub trait Message: Sized {
    type Model;

    spec fn model(&self) -> Self::Model;

    spec fn wire(m: Self::Model) -> Seq<u8>;

    spec fn take(b: Seq<u8>) -> Option<(Self::Model, Seq<u8>)>;

    spec fn fits(m: Self::Model) -> bool;

    proof fn lemma_take_wire(m: Self::Model, rest: Seq<u8>)
        requires
            Self::fits(m),
        ensures
            Self::take(Self::wire(m) + rest) == Some((m, rest)),
    ;

    /// Appends the value's bytes.
    fn put(&self, out: &mut Vec<u8>)
        ensures
            final(out)@ == old(out)@ + Self::wire(self.model()),
            Self::fits(self.model()),
    ;

    /// Reads one value at `pos`: the value and the position after it.
    fn get(b: &Vec<u8>, pos: usize) -> (r: Option<(Self, usize)>)
        requires
            pos <= b@.len(),
        ensures
            match r {
                Some((v, p)) => pos <= p <= b@.len() && Self::take(b@.skip(pos as int)) == Some(
                    (v.model(), b@.skip(p as int)),
                ),
                None => Self::take(b@.skip(pos as int)) is None,
            },
    ;
}

/// Relies on `String::from_utf8`: it succeeds exactly on valid UTF-8, and the
/// string then holds the characters those bytes encode.
#[verifier::external_body]
fn text_from_utf8(b: Vec<u8>) -> (r: Option<String>)
    ensures
        r is Some <==> valid_utf8(b@),
        r matches Some(s) ==> s@ == decode_utf8(b@),
{
    String::from_utf8(b).ok()
}

impl Message for String {
    type Model = Seq<char>;

    open spec fn model(&self) -> Seq<char> {
        self@
    }

    open spec fn wire(m: Seq<char>) -> Seq<u8> {
        framed(encode_utf8(m))
    }

    open spec fn take(b: Seq<u8>) -> Option<(Seq<char>, Seq<u8>)> {
        match take_framed(b) {
            Some((x, r)) => if valid_utf8(x) {
                Some((decode_utf8(x), r))
            } else {
                None
            },
            None => None,
        }
    }

    open spec fn fits(m: Seq<char>) -> bool {
        encode_utf8(m).len() <= u64::MAX
    }

    proof fn lemma_take_wire(m: Seq<char>, rest: Seq<u8>) {
        lemma_take_framed(encode_utf8(m), rest);
        encode_utf8_valid_utf8(m);
        encode_utf8_decode_utf8(m);
    }

    fn put(&self, out: &mut Vec<u8>) {
        let s: &str = self.as_str();
        put_framed(out, s.as_bytes());
    }

    fn get(b: &Vec<u8>, pos: usize) -> (r: Option<(String, usize)>) {
        match get_framed(b, pos) {
            Some((x, p)) => match text_from_utf8(x) {
                Some(s) => Some((s, p)),
                None => None,
            },
            None => None,
        }
    }
}

impl Message for bool {
    type Model = bool;

    open spec fn model(&self) -> bool {
        *self
    }

    open spec fn wire(m: bool) -> Seq<u8> {
        seq![if m { 1u8 } else { 0u8 }]
    }

    open spec fn take(b: Seq<u8>) -> Option<(bool, Seq<u8>)> {
        if b.len() >= 1 && b[0] <= 1 {
            Some((b[0] == 1, b.skip(1)))
        } else {
            None
        }
    }

    open spec fn fits(m: bool) -> bool {
        true
    }

    proof fn lemma_take_wire(m: bool, rest: Seq<u8>) {
        assert((Self::wire(m) + rest).skip(1) =~= rest);
    }

    fn put(&self, out: &mut Vec<u8>) {
        out.push(if *self { 1u8 } else { 0u8 });
        assert(out@ =~= old(out)@ + Self::wire(*self));
    }

    fn get(b: &Vec<u8>, pos: usize) -> (r: Option<(bool, usize)>) {
        if pos < b.len() && b[pos] <= 1 {
            assert(b@.skip(pos as int).skip(1) =~= b@.skip(pos + 1));
            Some((b[pos] == 1, pos + 1))
        } else {
            None
        }
    }
}

impl<T: Message> Message for Option<T> {
    type Model = Option<T::Model>;

    open spec fn model(&self) -> Option<T::Model> {
        match self {
            Some(v) => Some(v.model()),
            None => None,
        }
    }

    open spec fn wire(m: Option<T::Model>) -> Seq<u8> {
        match m {
            Some(v) => seq![1u8] + T::wire(v),
            None => seq![0u8],
        }
    }

    open spec fn take(b: Seq<u8>) -> Option<(Option<T::Model>, Seq<u8>)> {
        if b.len() >= 1 && b[0] == 0 {
            Some((None, b.skip(1)))
        } else if b.len() >= 1 && b[0] == 1 {
            match T::take(b.skip(1)) {
                Some((v, r)) => Some((Some(v), r)),
                None => None,
            }
        } else {
            None
        }
    }

    open spec fn fits(m: Option<T::Model>) -> bool {
        match m {
            Some(v) => T::fits(v),
            None => true,
        }
    }

    proof fn lemma_take_wire(m: Option<T::Model>, rest: Seq<u8>) {
        match m {
            Some(v) => {
                assert((Self::wire(m) + rest).skip(1) =~= T::wire(v) + rest);
                T::lemma_take_wire(v, rest);
            },
            None => {
                assert((Self::wire(m) + rest).skip(1) =~= rest);
            },
        }
    }

    fn put(&self, out: &mut Vec<u8>) {
        match self {
            Some(v) => {
                out.push(1u8);
                v.put(out);
                assert(out@ =~= old(out)@ + Self::wire(self.model()));
            },
            None => {
                out.push(0u8);
                assert(out@ =~= old(out)@ + Self::wire(self.model()));
            },
        }
    }

    fn get(b: &Vec<u8>, pos: usize) -> (r: Option<(Option<T>, usize)>) {
        if pos >= b.len() {
            return None;
        }
        assert(b@.skip(pos as int).skip(1) =~= b@.skip(pos + 1));
        if b[pos] == 0 {
            Some((None, pos + 1))
        } else if b[pos] == 1 {
            match T::get(b, pos + 1) {
                Some((v, p)) => Some((Some(v), p)),
                None => None,
            }
        } else {
            None
        }
    }
}


impl Message for u8 {
    type Model = u8;

    open spec fn model(&self) -> u8 {
        *self
    }

    open spec fn wire(m: u8) -> Seq<u8> {
        seq![m]
    }

    open spec fn take(b: Seq<u8>) -> Option<(u8, Seq<u8>)> {
        if b.len() >= 1 {
            Some((b[0], b.skip(1)))
        } else {
            None
        }
    }

    open spec fn fits(m: u8) -> bool {
        true
    }

    proof fn lemma_take_wire(m: u8, rest: Seq<u8>) {
        assert((Self::wire(m) + rest).skip(1) =~= rest);
    }

    fn put(&self, out: &mut Vec<u8>) {
        out.push(*self);
        assert(out@ =~= old(out)@ + Self::wire(*self));
    }

    fn get(b: &Vec<u8>, pos: usize) -> (r: Option<(u8, usize)>) {
        if pos >= b.len() {
            return None;
        }
        assert(b@.skip(pos as int).skip(1) =~= b@.skip(pos + 1));
        Some((b[pos], pos + 1))
    }
}

impl Message for u64 {
    type Model = u64;

    open spec fn model(&self) -> u64 {
        *self
    }

    open spec fn wire(m: u64) -> Seq<u8> {
        le_bytes(m)
    }

    open spec fn take(b: Seq<u8>) -> Option<(u64, Seq<u8>)> {
        if b.len() >= 8 {
            Some((le_value(b), b.skip(8)))
        } else {
            None
        }
    }

    open spec fn fits(m: u64) -> bool {
        true
    }

    proof fn lemma_take_wire(m: u64, rest: Seq<u8>) {
        lemma_le_round_trip(m);
        let w = le_bytes(m) + rest;
        assert(w.take(8) =~= le_bytes(m));
        assert(le_value(w) == le_value(le_bytes(m)));
        assert(w.skip(8) =~= rest);
    }

    fn put(&self, out: &mut Vec<u8>) {
        put_u64(out, *self);
    }

    fn get(b: &Vec<u8>, pos: usize) -> (r: Option<(u64, usize)>) {
        if b.len() - pos < 8 {
            return None;
        }
        let v = crate::codec::get_u64(b, pos);
        assert(b@.skip(pos as int).skip(8) =~= b@.skip(pos + 8));
        Some((v, pos + 8))
    }
}

/// The bytes of each model in turn.
pub open spec fn wire_items<T: Message>(ms: Seq<T::Model>) -> Seq<u8>
    decreases ms.len(),
{
    if ms.len() == 0 {
        Seq::empty()
    } else {
        T::wire(ms[0]) + wire_items::<T>(ms.drop_first())
    }
}

/// Reads `n` values in turn.
pub open spec fn take_items<T: Message>(b: Seq<u8>, n: nat) -> Option<(Seq<T::Model>, Seq<u8>)>
    decreases n,
{
    if n == 0 {
        Some((Seq::empty(), b))
    } else {
        match T::take(b) {
            Some((m, r)) => match take_items::<T>(r, (n - 1) as nat) {
                Some((ms, r2)) => Some((seq![m] + ms, r2)),
                None => None,
            },
            None => None,
        }
    }
}

pub open spec fn prepend_items<M>(acc: Seq<M>, o: Option<(Seq<M>, Seq<u8>)>) -> Option<(Seq<M>, Seq<u8>)> {
    match o {
        Some((ms, r)) => Some((acc + ms, r)),
        None => None,
    }
}

pub open spec fn models<T: Message>(v: Seq<T>) -> Seq<T::Model> {
    v.map_values(|t: T| t.model())
}

proof fn lemma_wire_items_push<T: Message>(ms: Seq<T::Model>, m: T::Model)
    ensures
        wire_items::<T>(ms.push(m)) == wire_items::<T>(ms) + T::wire(m),
    decreases ms.len(),
{
    if ms.len() == 0 {
        assert(ms.push(m).drop_first() =~= Seq::<T::Model>::empty());
        assert(wire_items::<T>(Seq::<T::Model>::empty()) =~= Seq::<u8>::empty());
        assert(T::wire(m) + Seq::<u8>::empty() =~= T::wire(m));
        assert(Seq::<u8>::empty() + T::wire(m) =~= T::wire(m));
    } else {
        assert(ms.push(m).drop_first() =~= ms.drop_first().push(m));
        lemma_wire_items_push::<T>(ms.drop_first(), m);
        assert(T::wire(ms[0]) + (wire_items::<T>(ms.drop_first()) + T::wire(m)) =~= (T::wire(ms[0])
            + wire_items::<T>(ms.drop_first())) + T::wire(m));
    }
}

proof fn lemma_take_items_wire<T: Message>(ms: Seq<T::Model>, rest: Seq<u8>)
    requires
        forall|i: int| 0 <= i < ms.len() ==> T::fits(#[trigger] ms[i]),
    ensures
        take_items::<T>(wire_items::<T>(ms) + rest, ms.len()) == Some((ms, rest)),
    decreases ms.len(),
{
    if ms.len() == 0 {
        assert(wire_items::<T>(ms) + rest =~= rest);
        assert(ms =~= Seq::<T::Model>::empty());
    } else {
        let tail = ms.drop_first();
        assert forall|i: int| 0 <= i < tail.len() implies T::fits(#[trigger] tail[i]) by {
            assert(tail[i] == ms[i + 1]);
        }
        lemma_take_items_wire::<T>(tail, rest);
        assert(wire_items::<T>(ms) + rest =~= T::wire(ms[0]) + (wire_items::<T>(tail) + rest));
        assert(T::fits(ms[0]));
        T::lemma_take_wire(ms[0], wire_items::<T>(tail) + rest);
        assert(seq![ms[0]] + tail =~= ms);
        assert((ms.len() - 1) as nat == tail.len());
    }
}

proof fn lemma_take_items_step<T: Message>(b: Seq<u8>, n: nat, m: T::Model, r: Seq<u8>, acc: Seq<T::Model>)
    requires
        n > 0,
        T::take(b) == Some((m, r)),
    ensures
        prepend_items(acc, take_items::<T>(b, n)) == prepend_items(acc.push(m), take_items::<T>(r, (n - 1) as nat)),
{
    match take_items::<T>(r, (n - 1) as nat) {
        Some((ms, r2)) => {
            assert(acc + (seq![m] + ms) =~= acc.push(m) + ms);
        },
        None => {},
    }
}

impl<T: Message> Message for Vec<T> {
    type Model = Seq<T::Model>;

    open spec fn model(&self) -> Seq<T::Model> {
        models(self@)
    }

    open spec fn wire(m: Seq<T::Model>) -> Seq<u8> {
        le_bytes(m.len() as u64) + wire_items::<T>(m)
    }

    open spec fn take(b: Seq<u8>) -> Option<(Seq<T::Model>, Seq<u8>)> {
        if b.len() < 8 {
            None
        } else {
            take_items::<T>(b.skip(8), le_value(b) as nat)
        }
    }

    open spec fn fits(m: Seq<T::Model>) -> bool {
        &&& m.len() <= u64::MAX
        &&& forall|i: int| 0 <= i < m.len() ==> T::fits(#[trigger] m[i])
    }

    proof fn lemma_take_wire(m: Seq<T::Model>, rest: Seq<u8>) {
        lemma_le_round_trip(m.len() as u64);
        let w = Self::wire(m) + rest;
        assert(w.take(8) =~= le_bytes(m.len() as u64));
        assert(le_value(w) == le_value(le_bytes(m.len() as u64)));
        assert(w.skip(8) =~= wire_items::<T>(m) + rest);
        lemma_take_items_wire::<T>(m, rest);
    }

    fn put(&self, out: &mut Vec<u8>) {
        let n: usize = self.len();
        put_u64(out, n as u64);
        let ghost start = out@;
        let mut i: usize = 0;
        while i < n
            invariant
                n == self@.len(),
                i <= n,
                start == old(out)@ + le_bytes(n as u64),
                out@ == start + wire_items::<T>(models(self@).take(i as int)),
                forall|j: int| 0 <= j < i ==> T::fits(#[trigger] models(self@)[j]),
            decreases n - i,
        {
            let ghost before = out@;
            self[i].put(out);
            proof {
                let ms = models(self@);
                assert(ms.take(i + 1) =~= ms.take(i as int).push(ms[i as int]));
                lemma_wire_items_push::<T>(ms.take(i as int), ms[i as int]);
                assert(out@ =~= start + wire_items::<T>(ms.take(i + 1)));
            }
            i = i + 1;
        }
        assert(models(self@).take(n as int) =~= models(self@));
        assert(out@ =~= old(out)@ + Self::wire(self.model()));
    }

    fn get(b: &Vec<u8>, pos: usize) -> (r: Option<(Vec<T>, usize)>) {
        if b.len() - pos < 8 {
            return None;
        }
        let n: u64 = crate::codec::get_u64(b, pos);
        let mut p: usize = pos + 8;
        assert(b@.skip(pos as int).skip(8) =~= b@.skip(p as int));
        let mut items: Vec<T> = Vec::new();
        let mut i: u64 = 0;
        assert(prepend_items(Seq::<T::Model>::empty(), take_items::<T>(b@.skip(p as int), n as nat))
            =~= take_items::<T>(b@.skip(p as int), n as nat)) by {
            match take_items::<T>(b@.skip(p as int), n as nat) {
                Some((ms, r)) => { assert(Seq::<T::Model>::empty() + ms =~= ms); },
                None => {},
            }
        }
        while i < n
            invariant
                i <= n,
                pos + 8 <= p <= b@.len(),
                items@.len() == i,
                Self::take(b@.skip(pos as int)) == prepend_items(models(items@), take_items::<T>(b@.skip(p as int), (n - i) as nat)),
            decreases n - i,
        {
            match T::get(b, p) {
                Some((v, p2)) => {
                    proof {
                        lemma_take_items_step::<T>(b@.skip(p as int), (n - i) as nat, v.model(), b@.skip(p2 as int), models(items@));
                    }
                    let ghost prev = items@;
                    items.push(v);
                    assert(models(items@) =~= models(prev).push(items@[prev.len() as int].model()));
                    p = p2;
                },
                None => {
                    return None;
                },
            }
            i = i + 1;
        }
        assert(prepend_items(models(items@), take_items::<T>(b@.skip(p as int), 0)) == Some((models(items@), b@.skip(p as int)))) by {
            assert(models(items@) + Seq::<T::Model>::empty() =~= models(items@));
        }
        Some((items, p))
    }
}

} // verus!
