//! The two requests the picker makes, the candidates it offers, and the
//! queue of widgets waiting for the host to take them.
use vstd::prelude::*;
use vstd::string::*;
use vstd::utf8::encode_utf8;

use crate::error::IpcError;
use crate::model::Tree;
use crate::text::{decimal, decimal_text};
use crate::wire::{encode_frame, frame, ByteOrder};

verus! {

/// The message type that runs a command.
pub const RUN_COMMAND: u32 = 0;

/// The message type that asks for the whole tree.
pub const GET_TREE: u32 = 4;

/// The request for the whole tree; its payload is empty.
pub struct GetTree();

impl GetTree {
    pub fn payload_type(&self) -> (r: u32)
        ensures
            r == GET_TREE,
    {
        GET_TREE
    }

    pub fn payload(&self) -> (r: Vec<u8>)
        ensures
            r@ == Seq::<u8>::empty(),
    {
        Vec::new()
    }

    /// The whole request frame.
    pub fn request(&self, order: ByteOrder) -> (r: Vec<u8>)
        ensures
            r@ == frame(GET_TREE, Seq::empty(), order),
    {
        let payload = self.payload();
        match encode_frame(self.payload_type(), payload.as_slice(), order) {
            Ok(f) => f,
            Err(_) => Vec::new(),
        }
    }
}

/// The request that runs a command; its payload is the command's text.
pub struct Exec {
    pub command: String,
}

impl Exec {
    pub fn new(command: String) -> (r: Exec)
        ensures
            r.command@ == command@,
    {
        Exec { command }
    }

    pub fn payload_type(&self) -> (r: u32)
        ensures
            r == RUN_COMMAND,
    {
        RUN_COMMAND
    }

    /// The command's text in UTF-8.
    pub fn payload(&self) -> (r: &[u8])
        ensures
            r@ == encode_utf8(self.command@),
    {
        self.command.as_str().as_bytes()
    }

    /// The whole request frame; a command too long for the length field is
    /// refused.
    pub fn request(&self, order: ByteOrder) -> (r: Result<Vec<u8>, IpcError>)
        ensures
            encode_utf8(self.command@).len() > u32::MAX ==> r == Err::<Vec<u8>, IpcError>(
                IpcError::PayloadTooLarge,
            ),
            encode_utf8(self.command@).len() <= u32::MAX ==> (r matches Ok(f) && f@ == frame(
                RUN_COMMAND,
                encode_utf8(self.command@),
                order,
            )),
    {
        encode_frame(self.payload_type(), self.payload(), order)
    }
}

/// The command that focuses the container whose id is written `token`.
pub open spec fn focus_command_text(token: Seq<char>) -> Seq<char> {
    "[con_id="@ + token + "] focus"@
}

/// Writes the command that focuses the container named by an action token.
pub fn focus_command(token: &str) -> (r: String)
    ensures
        r@ == focus_command_text(token@),
{
    let mut s = String::from_str("[con_id=");
    s.append(token);
    s.append("] focus");
    s
}

/// The request frame that focuses the container named by an action token.
pub fn activation_request(token: &str, order: ByteOrder) -> (r: Result<Vec<u8>, IpcError>)
    ensures
        encode_utf8(focus_command_text(token@)).len() > u32::MAX ==> r == Err::<
            Vec<u8>,
            IpcError,
        >(IpcError::PayloadTooLarge),
        encode_utf8(focus_command_text(token@)).len() <= u32::MAX ==> (r matches Ok(f) && f@
            == frame(RUN_COMMAND, encode_utf8(focus_command_text(token@)), order)),
{
    Exec::new(focus_command(token)).request(order)
}

/// One entry offered to the picker: its label and the token that comes back
/// when it is chosen.
pub struct Candidate {
    pub label: String,
    pub action: String,
}

/// The label and action token of a candidate.
pub open spec fn candidate_view(c: Candidate) -> (Seq<char>, Seq<char>) {
    (c.label@, c.action@)
}

/// The candidate for a node: its name, and its id in decimal; a node without
/// a name gives none.
pub open spec fn candidate_of(t: Tree) -> Option<(Seq<char>, Seq<char>)> {
    match t.name {
        Some(n) => Some((n@, decimal(t.id as nat))),
        None => None,
    }
}

/// The candidates for a list of siblings, in their order.
pub open spec fn candidates_of(siblings: Seq<Tree>) -> Seq<(Seq<char>, Seq<char>)> {
    siblings.filter_map(|t: Tree| candidate_of(t))
}

/// One candidate for each sibling that has a name, in the siblings' order,
/// labelled with the name and carrying the id in decimal as its token.
/// Siblings without a name are skipped.
pub fn candidates(siblings: &Vec<Tree>) -> (r: Vec<Candidate>)
    ensures
        r@.map_values(|c: Candidate| candidate_view(c)) == candidates_of(siblings@),
{
    let mut out: Vec<Candidate> = Vec::new();
    let mut i: usize = 0;
    while i < siblings.len()
        invariant
            0 <= i <= siblings@.len(),
            out@.map_values(|c: Candidate| candidate_view(c)) == candidates_of(
                siblings@.subrange(0, i as int),
            ),
        decreases siblings@.len() - i,
    {
        let ghost done = siblings@.subrange(0, i as int);
        let ghost next = siblings@.subrange(0, i + 1);
        assert(next.drop_last() =~= done);
        assert(next.last() == siblings@[i as int]);
        let node = &siblings[i];
        match &node.name {
            Some(n) => {
                out.push(Candidate { label: n.clone(), action: decimal_text(node.id) });
            },
            None => {},
        }
        i = i + 1;
        assert(out@.map_values(|c: Candidate| candidate_view(c)) =~= candidates_of(next));
    }
    assert(siblings@.subrange(0, siblings@.len() as int) =~= siblings@);
    out
}

/// Adding a sibling to the end of a list adds its candidate to the end of
/// the list's candidates when it has a name, and nothing when it has none.
pub proof fn lemma_candidates_push(siblings: Seq<Tree>, t: Tree)
    ensures
        candidates_of(siblings.push(t)) == match t.name {
            Some(n) => candidates_of(siblings).push((n@, decimal(t.id as nat))),
            None => candidates_of(siblings),
        },
{
    assert(siblings.push(t).drop_last() =~= siblings);
}

/// The socket to use: the primary path if it is set and not empty, else the
/// fallback path if it is, else `SocketNotFound`.
pub fn socket_path(primary: Option<Vec<u8>>, fallback: Option<Vec<u8>>) -> (r: Result<
    Vec<u8>,
    IpcError,
>)
    ensures
        match primary {
            Some(p) if p@.len() > 0 => r == Ok::<Vec<u8>, IpcError>(p),
            _ => match fallback {
                Some(f) if f@.len() > 0 => r == Ok::<Vec<u8>, IpcError>(f),
                _ => r == Err::<Vec<u8>, IpcError>(IpcError::SocketNotFound),
            },
        },
{
    match primary {
        Some(p) if p.len() > 0 => {
            return Ok(p);
        },
        _ => {},
    }
    match fallback {
        Some(f) if f.len() > 0 => Ok(f),
        _ => Err(IpcError::SocketNotFound),
    }
}

/// A handle that the host owns. The library keeps it and hands it back, and
/// never looks inside.
pub struct SendPtr<T>(pub T);

impl<T: Copy> SendPtr<T> {
    pub fn get(&self) -> (r: T)
        ensures
            r == self.0,
    {
        self.0
    }

    pub fn new(ptr: T) -> (r: Self)
        ensures
            r.0 == ptr,
    {
        SendPtr(ptr)
    }
}

/// The widgets made for the candidates, waiting for the host to take them
/// one at a time, and whether candidates were already made in this process.
pub struct WidgetQueue<T> {
    pending: Vec<SendPtr<T>>,
    populated: bool,
}

impl<T: Copy> WidgetQueue<T> {
    /// The handles waiting, oldest first.
    pub closed spec fn pending(&self) -> Seq<T> {
        self.pending@.map_values(|p: SendPtr<T>| p.0)
    }

    /// Whether candidates were already made.
    pub closed spec fn populated(&self) -> bool {
        self.populated
    }

    pub fn new() -> (r: Self)
        ensures
            r.pending() == Seq::<T>::empty(),
            !r.populated(),
    {
        let r = WidgetQueue { pending: Vec::new(), populated: false };
        assert(r.pending() =~= Seq::<T>::empty());
        r
    }

    /// Marks the start of the one time candidates are made. A second time is
    /// refused with `AlreadyPopulated`, and the queue is left as it was.
    pub fn begin_populate(&mut self) -> (r: Result<(), IpcError>)
        ensures
            old(self).populated() ==> r == Err::<(), IpcError>(IpcError::AlreadyPopulated),
            !old(self).populated() ==> r is Ok,
            final(self).populated(),
            final(self).pending() == old(self).pending(),
    {
        if self.populated {
            return Err(IpcError::AlreadyPopulated);
        }
        self.populated = true;
        Ok(())
    }

    /// Adds a widget to the queue.
    pub fn push(&mut self, widget: T)
        ensures
            final(self).pending() == old(self).pending().push(widget),
            final(self).populated() == old(self).populated(),
    {
        self.pending.push(SendPtr::new(widget));
        assert(final(self).pending() =~= old(self).pending().push(widget));
    }

    /// Hands out the widget added last, or `None` when none is waiting.
    pub fn pop(&mut self) -> (r: Option<T>)
        ensures
            old(self).pending().len() == 0 ==> r is None && final(self).pending() == old(
                self,
            ).pending(),
            old(self).pending().len() > 0 ==> r == Some(old(self).pending().last())
                && final(self).pending() == old(self).pending().drop_last(),
            final(self).populated() == old(self).populated(),
    {
        match self.pending.pop() {
            Some(p) => {
                assert(final(self).pending() =~= old(self).pending().drop_last());
                Some(p.get())
            },
            None => None,
        }
    }
}

} // verus!
