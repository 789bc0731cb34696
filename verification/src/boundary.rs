//! Text on its way across the foreign-call boundary.
//!
//! Incoming text arrives as the bytes behind a handle and is checked before
//! anything else looks at it. Outgoing text leaves as a zero-terminated
//! buffer that the caller owns from then on and gives back exactly once; the
//! ledger keeps track of the buffers that are out.

use vstd::prelude::*;
use vstd::string::StringSliceAdditionalSpecFns;
use vstd::utf8::{decode_utf8, encode_utf8, valid_utf8};

verus! {

/// Why incoming text is turned down.
#[derive(Clone, Copy, Debug, PartialEq, Eq, Structural)]
pub enum BoundaryError {
    /// The handle was null: there are no bytes to read.
    NullHandle,
    /// The bytes are not UTF-8.
    InvalidEncoding,
}

/// What the bytes behind a handle stand for: their text, or the reason why
/// they stand for none.
pub open spec fn decoded(handle: Option<Seq<u8>>) -> Result<Seq<char>, BoundaryError> {
    match handle {
        None => Err(BoundaryError::NullHandle),
        Some(bytes) => if valid_utf8(bytes) {
            Ok(decode_utf8(bytes))
        } else {
            Err(BoundaryError::InvalidEncoding)
        },
    }
}

/// The bytes behind a handle, where there are any.
pub open spec fn handle_bytes(handle: Option<Vec<u8>>) -> Option<Seq<u8>> {
    match handle {
        None => None,
        Some(bytes) => Some(bytes@),
    }
}

/// Calls `String::from_utf8`. The contract claims what its documentation
/// says: the bytes become a string exactly when they are UTF-8, and the
/// string then holds the text that they encode.
#[verifier::external_body]
fn text_of_utf8(bytes: Vec<u8>) -> (text: Option<String>)
    ensures
        text is Some <==> valid_utf8(bytes@),
        text matches Some(s) ==> s@ == decode_utf8(bytes@),
{
    match String::from_utf8(bytes) {
        Ok(text) => Some(text),
        Err(_) => None,
    }
}

/// Reads the text behind a handle: `None` stands for a null handle, the
/// bytes otherwise are those before the terminator.
pub fn decode_text(handle: Option<Vec<u8>>) -> (outcome: Result<String, BoundaryError>)
    ensures
        match decoded(handle_bytes(handle)) {
            Ok(chars) => outcome matches Ok(text) && text@ == chars,
            Err(error) => outcome == Err::<String, BoundaryError>(error),
        },
{
    match handle {
        None => Err(BoundaryError::NullHandle),
        Some(bytes) => match text_of_utf8(bytes) {
            Some(text) => Ok(text),
            None => Err(BoundaryError::InvalidEncoding),
        },
    }
}

/// The buffer that carries `bytes` to the caller: the bytes and a
/// terminating zero.
pub open spec fn c_text(bytes: Seq<u8>) -> Seq<u8> {
    bytes.push(0u8)
}

/// The buffer for a text, where there is one: a text with a zero byte in it
/// cannot be carried.
pub open spec fn encoded(text: Seq<char>) -> Option<Seq<u8>> {
    if encode_utf8(text).contains(0u8) {
        None
    } else {
        Some(c_text(encode_utf8(text)))
    }
}

/// Builds the buffer that hands `text` to the caller.
pub fn encode_text(text: &str) -> (buffer: Option<Vec<u8>>)
    ensures
        match encoded(text@) {
            Some(bytes) => buffer matches Some(b) && b@ == bytes,
            None => buffer is None,
        },
{
    let bytes = text.as_bytes();
    let mut buffer: Vec<u8> = Vec::new();
    let mut i: usize = 0;
    while i < bytes.len()
        invariant
            i <= bytes@.len(),
            bytes@ == encode_utf8(text@),
            buffer@ == bytes@.subrange(0, i as int),
            forall|j: int| 0 <= j < i ==> bytes@[j] != 0,
        decreases bytes@.len() - i,
    {
        let byte: u8 = bytes[i];
        if byte == 0 {
            assert(bytes@[i as int] == 0u8);
            return None;
        }
        buffer.push(byte);
        i += 1;
        assert(buffer@ =~= bytes@.subrange(0, i as int));
    }
    assert(bytes@.subrange(0, i as int) =~= bytes@);
    buffer.push(0);
    Some(buffer)
}

/// Builds the buffer for a serialised list of results; `None` stands for a
/// list that could not be serialised, and gives no buffer.
pub fn matches_to_cstring(json: Option<String>) -> (buffer: Option<Vec<u8>>)
    ensures
        match json {
            Some(text) => match encoded(text@) {
                Some(bytes) => buffer matches Some(b) && b@ == bytes,
                None => buffer is None,
            },
            None => buffer is None,
        },
{
    match json {
        Some(text) => encode_text(text.as_str()),
        None => None,
    }
}

/// A text that can be carried comes back as it was: the bytes before the
/// terminator are UTF-8 and decode to the text.
pub proof fn carried_text_comes_back(text: Seq<char>)
    requires
        encoded(text) is Some,
    ensures
        encoded(text)->0.len() == encode_utf8(text).len() + 1,
        encoded(text)->0.last() == 0u8,
        !encoded(text)->0.drop_last().contains(0u8),
        decoded(Some(encoded(text)->0.drop_last())) == Ok::<Seq<char>, BoundaryError>(text),
{
    broadcast use vstd::utf8::encode_utf8_valid_utf8, vstd::utf8::encode_utf8_decode_utf8;

    let bytes = encode_utf8(text);
    assert(c_text(bytes).drop_last() =~= bytes);
    assert(valid_utf8(bytes));
    assert(decode_utf8(bytes) == text);
}

/// What a call to release a handle comes to.
#[derive(Clone, Copy, Debug, PartialEq, Eq, Structural)]
pub enum Release {
    /// The handle was null: nothing to do.
    Nothing,
    /// The handle names a buffer that is out: it is to be freed, once.
    Free,
    /// The handle names no buffer that is out: it was released before, or
    /// never came from here. Nothing may be freed.
    Unknown,
}

/// What releasing `handle` comes to while the buffers `live` are out.
pub open spec fn release_of(live: Set<usize>, handle: usize) -> Release {
    if handle == 0 {
        Release::Nothing
    } else if live.contains(handle) {
        Release::Free
    } else {
        Release::Unknown
    }
}

/// The buffers that are out after `handle` was released: the same without
/// the buffer that was freed, and the very same where nothing was freed.
pub open spec fn after_release(live: Set<usize>, handle: usize) -> Set<usize> {
    if release_of(live, handle) == Release::Free {
        live.remove(handle)
    } else {
        live
    }
}

/// A list of distinct handles, none of them null, stays one when a handle
/// that is neither null nor listed is put at its end, and then lists that
/// handle besides the others.
proof fn entered_handle(list: Seq<usize>, handle: usize)
    requires
        list.no_duplicates(),
        !list.contains(0usize),
        handle != 0,
        !list.contains(handle),
    ensures
        list.push(handle).no_duplicates(),
        !list.push(handle).contains(0usize),
        list.push(handle).to_set() == list.to_set().insert(handle),
{
    let longer = list.push(handle);
    assert forall|h: usize| longer.contains(h) implies h == handle || list.contains(h) by {
        let at = choose|at: int| 0 <= at < longer.len() && longer[at] == h;
        if at < list.len() {
            assert(list[at] == h);
        }
    }
    assert forall|h: usize| h == handle || list.contains(h) implies longer.contains(h) by {
        if h == handle {
            assert(longer[list.len() as int] == h);
        } else {
            let at = choose|at: int| 0 <= at < list.len() && list[at] == h;
            assert(longer[at] == h);
        }
    }
    assert(longer.to_set() =~= list.to_set().insert(handle));
}

/// A list of distinct handles, none of them null, stays one when an entry
/// is struck, and then lists the others and not the handle that was struck.
proof fn struck_handle(list: Seq<usize>, at: int)
    requires
        list.no_duplicates(),
        !list.contains(0usize),
        0 <= at < list.len(),
    ensures
        list.remove(at).no_duplicates(),
        !list.remove(at).contains(0usize),
        list.remove(at).to_set() == list.to_set().remove(list[at]),
{
    let shorter = list.remove(at);
    assert forall|j: int| 0 <= j < shorter.len() implies #[trigger] shorter[j] == list[if j < at {
        j
    } else {
        j + 1
    }] by {}
    assert forall|h: usize| shorter.contains(h) implies list.contains(h) && h != list[at] by {
        let j = choose|j: int| 0 <= j < shorter.len() && shorter[j] == h;
        assert(list[if j < at { j } else { j + 1 }] == h);
    }
    assert forall|h: usize| list.contains(h) && h != list[at] implies shorter.contains(h) by {
        let j = choose|j: int| 0 <= j < list.len() && list[j] == h;
        if j < at {
            assert(shorter[j] == h);
        } else {
            assert(shorter[j - 1] == h);
        }
    }
    assert(shorter.to_set() =~= list.to_set().remove(list[at]));
}

/// The buffers that were handed to the caller and not yet released, by
/// address.
pub struct HandleLedger {
    live: Vec<usize>,
}

impl View for HandleLedger {
    type V = Set<usize>;

    closed spec fn view(&self) -> Set<usize> {
        self.live@.to_set()
    }
}

impl HandleLedger {
    #[verifier::type_invariant]
    spec fn sound(self) -> bool {
        self.live@.no_duplicates() && !self.live@.contains(0usize)
    }

    /// A ledger with no buffer out.
    pub fn new() -> (ledger: HandleLedger)
        ensures
            ledger@ == Set::<usize>::empty(),
    {
        let ledger = HandleLedger { live: Vec::new() };
        assert(ledger.live@.to_set() =~= Set::<usize>::empty());
        ledger
    }

    fn position(&self, handle: usize) -> (at: Option<usize>)
        ensures
            match at {
                Some(i) => i < self.live@.len() && self.live@[i as int] == handle,
                None => !self.live@.contains(handle),
            },
    {
        let mut i: usize = 0;
        while i < self.live.len()
            invariant
                i <= self.live@.len(),
                forall|j: int| 0 <= j < i ==> self.live@[j] != handle,
            decreases self.live@.len() - i,
        {
            if self.live[i] == handle {
                return Some(i);
            }
            i += 1;
        }
        None
    }

    /// Whether the buffer at `handle` is out.
    pub fn is_outstanding(&self, handle: usize) -> (out: bool)
        ensures
            out == self@.contains(handle),
            handle == 0 ==> !out,
    {
        proof {
            use_type_invariant(self);
        }
        match self.position(handle) {
            Some(i) => {
                assert(self.live@.contains(handle));
                true
            },
            None => false,
        }
    }

    /// How many buffers are out.
    pub fn outstanding(&self) -> (count: usize)
        ensures
            count == self@.len(),
            self@.finite(),
    {
        proof {
            use_type_invariant(self);
            self.live@.unique_seq_to_set();
        }
        self.live.len()
    }

    /// Records that the buffer at `handle` now belongs to the caller. A null
    /// handle names no buffer, and a buffer that is out already is not
    /// recorded twice.
    pub fn lend(&mut self, handle: usize) -> (recorded: bool)
        ensures
            recorded <==> handle != 0 && !old(self)@.contains(handle),
            recorded ==> final(self)@ == old(self)@.insert(handle),
            !recorded ==> final(self)@ == old(self)@,
    {
        proof {
            use_type_invariant(&*self);
        }
        if handle == 0 {
            return false;
        }
        match self.position(handle) {
            Some(i) => {
                assert(self.live@.contains(handle));
                false
            },
            None => {
                let ghost before = self.live@;
                let mut live: Vec<usize> = Vec::new();
                std::mem::swap(&mut self.live, &mut live);
                live.push(handle);
                std::mem::swap(&mut self.live, &mut live);
                proof {
                    entered_handle(before, handle);
                }
                true
            },
        }
    }
}

/// Releases the buffer at `handle`. Only the answer `Free` allows the buffer
/// to be freed, and the buffer is then out no longer: a second release of the
/// same handle is answered `Unknown`. A null handle, and a handle that names
/// no buffer that is out, leave the ledger as it is.
pub fn free_cstring(ledger: &mut HandleLedger, handle: usize) -> (release: Release)
    ensures
        release == release_of(old(ledger)@, handle),
        final(ledger)@ == after_release(old(ledger)@, handle),
        handle == 0 ==> release == Release::Nothing && final(ledger)@ == old(ledger)@,
        !final(ledger)@.contains(handle),
{
    proof {
        use_type_invariant(&*ledger);
    }
    if handle == 0 {
        assert(!ledger.live@.contains(0usize));
        return Release::Nothing;
    }
    match ledger.position(handle) {
        None => Release::Unknown,
        Some(i) => {
            let ghost before = ledger.live@;
            assert(before.contains(handle));
            let mut live: Vec<usize> = Vec::new();
            std::mem::swap(&mut ledger.live, &mut live);
            live.remove(i);
            std::mem::swap(&mut ledger.live, &mut live);
            proof {
                struck_handle(before, i as int);
            }
            Release::Free
        },
    }
}

/// Releasing a null handle does nothing: nothing is to be freed, and the
/// buffers that are out stay out.
pub proof fn null_release_is_nothing(live: Set<usize>)
    ensures
        release_of(live, 0) == Release::Nothing,
        after_release(live, 0) == live,
{
}

/// A buffer is freed at most once: after a handle is released, releasing it
/// again, however often, frees nothing and leaves the ledger as it is.
pub proof fn second_release_frees_nothing(live: Set<usize>, handle: usize)
    ensures
        release_of(after_release(live, handle), handle) != Release::Free,
        after_release(after_release(live, handle), handle) == after_release(live, handle),
{
}

/// A release touches no other buffer: what else was out stays out, and
/// nothing comes to be out.
pub proof fn release_leaves_the_others(live: Set<usize>, handle: usize, other: usize)
    requires
        other != handle,
    ensures
        after_release(live, handle).contains(other) == live.contains(other),
        release_of(after_release(live, handle), other) == release_of(live, other),
{
}

/// A buffer that was lent is freed by its first release, and the ledger is
/// then as it was before the buffer was lent.
pub proof fn lent_buffer_is_freed(live: Set<usize>, handle: usize)
    requires
        handle != 0,
        !live.contains(handle),
    ensures
        release_of(live.insert(handle), handle) == Release::Free,
        after_release(live.insert(handle), handle) == live,
{
    assert(live.insert(handle).remove(handle) =~= live);
}

} // verus!
