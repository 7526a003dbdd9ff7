//! FIFO queue for pending approval items (permissions and questions).
use crate::approval::types::approval_id;
use crate::approval::types::PendingApproval;
use crate::approval::types::PendingApprovalV;
use crate::approval::types::PermissionRequest;
use crate::approval::types::QuestionRequest;
use crate::text::chars_eq;
use crate::text::chars_of;
use std::collections::VecDeque;
use vstd::prelude::*;

verus! {

/// FIFO queue for pending permission and question approvals.
pub struct ApprovalQueue {
    items: VecDeque<PendingApproval>,
}

/// Position `i` of `s` holds the first item with request ID `id`.
pub open spec fn is_first_with_id(s: Seq<PendingApprovalV>, id: Seq<char>, i: int) -> bool {
    &&& 0 <= i < s.len()
    &&& approval_id(s[i]) == id
    &&& forall|j: int| 0 <= j < i ==> approval_id(s[j]) != id
}

/// Some item of `s` has request ID `id`.
pub open spec fn has_id(s: Seq<PendingApprovalV>, id: Seq<char>) -> bool {
    exists|i: int| 0 <= i < s.len() && approval_id(s[i]) == id
}

/// `s` with its first item of request ID `id` taken out (unchanged if there
/// is none).
pub open spec fn without_first_id(s: Seq<PendingApprovalV>, id: Seq<char>) -> Seq<
    PendingApprovalV,
>
    decreases s.len(),
{
    if s.len() == 0 {
        s
    } else if approval_id(s[0]) == id {
        s.drop_first()
    } else {
        seq![s[0]] + without_first_id(s.drop_first(), id)
    }
}

impl View for ApprovalQueue {
    type V = Seq<PendingApprovalV>;

    closed spec fn view(&self) -> Seq<PendingApprovalV> {
        self.items@.map_values(|a: PendingApproval| a@)
    }
}

/// Removing the first item of a given ID from a sequence is removing it at
/// its first position.
pub proof fn lemma_without_first_id(s: Seq<PendingApprovalV>, id: Seq<char>, i: int)
    requires
        is_first_with_id(s, id, i),
    ensures
        without_first_id(s, id) == s.remove(i),
    decreases s.len(),
{
    if i == 0 {
        assert(s.drop_first() =~= s.remove(0));
    } else {
        lemma_without_first_id(s.drop_first(), id, i - 1);
        assert(seq![s[0]] + s.drop_first().remove(i - 1) =~= s.remove(i));
    }
}

/// A sequence without an item of a given ID is unchanged by removing that ID.
pub proof fn lemma_without_absent_id(s: Seq<PendingApprovalV>, id: Seq<char>)
    requires
        !has_id(s, id),
    ensures
        without_first_id(s, id) == s,
    decreases s.len(),
{
    if s.len() > 0 {
        assert(!has_id(s.drop_first(), id)) by {
            if has_id(s.drop_first(), id) {
                let k = choose|k: int|
                    0 <= k < s.drop_first().len() && approval_id(s.drop_first()[k]) == id;
                assert(approval_id(s[k + 1]) == id);
            }
        }
        assert(approval_id(s[0]) != id);
        lemma_without_absent_id(s.drop_first(), id);
        assert(seq![s[0]] + s.drop_first() =~= s);
    }
}

impl ApprovalQueue {
    pub fn new() -> (q: Self)
        ensures
            q@ == Seq::<PendingApprovalV>::empty(),
    {
        let q = ApprovalQueue { items: VecDeque::new() };
        assert(q@ =~= Seq::<PendingApprovalV>::empty());
        q
    }

    /// Returns the number of pending items.
    pub fn len(&self) -> (n: usize)
        ensures
            n == self@.len(),
    {
        self.items.len()
    }

    /// Returns true if there are pending items.
    pub fn has_pending(&self) -> (b: bool)
        ensures
            b == (self@.len() > 0),
    {
        self.items.len() > 0
    }

    /// Returns a reference to the front item without removing it.
    pub fn peek(&self) -> (r: Option<&PendingApproval>)
        ensures
            match r {
                Some(a) => self@.len() > 0 && a@ == self@[0],
                None => self@.len() == 0,
            },
    {
        if self.items.len() > 0 {
            Some(&self.items[0])
        } else {
            None
        }
    }

    /// Adds a permission request to the back of the queue.
    pub fn add_permission(&mut self, request: PermissionRequest)
        ensures
            final(self)@ == old(self)@.push(PendingApprovalV::Permission(request@)),
    {
        self.items.push_back(PendingApproval::Permission(request));
        assert(self@ =~= old(self)@.push(PendingApprovalV::Permission(request@)));
    }

    /// Adds a question request to the back of the queue.
    pub fn add_question(&mut self, request: QuestionRequest)
        ensures
            final(self)@ == old(self)@.push(PendingApprovalV::Question(request@)),
    {
        self.items.push_back(PendingApproval::Question(request));
        assert(self@ =~= old(self)@.push(PendingApprovalV::Question(request@)));
    }

    /// Removes the item with the given request ID. Returns true if found and
    /// removed.
    pub fn remove(&mut self, request_id: &str) -> (found: bool)
        ensures
            found == has_id(old(self)@, request_id@),
            final(self)@ == without_first_id(old(self)@, request_id@),
    {
        let key = chars_of(request_id);
        let mut i: usize = 0;
        while i < self.items.len()
            invariant
                i <= self.items@.len(),
                self@ == old(self)@,
                key@ == request_id@,
                forall|j: int| 0 <= j < i ==> approval_id(self@[j]) != request_id@,
            decreases self.items@.len() - i,
        {
            let id = chars_of(self.items[i].id());
            if chars_eq(&id, &key) {
                let ghost before = self@;
                proof {
                    lemma_without_first_id(before, request_id@, i as int);
                }
                self.items.remove(i);
                assert(self@ =~= before.remove(i as int));
                return true;
            }
            i = i + 1;
        }
        proof {
            assert(!has_id(old(self)@, request_id@));
            lemma_without_absent_id(old(self)@, request_id@);
        }
        false
    }

    /// Removes every pending item.
    pub fn clear(&mut self)
        ensures
            final(self)@ == Seq::<PendingApprovalV>::empty(),
    {
        self.items.clear();
        assert(self@ =~= Seq::<PendingApprovalV>::empty());
    }
}

impl Default for ApprovalQueue {
    fn default() -> (q: Self)
        ensures
            q@ == Seq::<PendingApprovalV>::empty(),
    {
        Self::new()
    }
}

/// Queue order: the front item stays at the front when items are added, and
/// an item added to an empty queue is at the front.
pub proof fn law_fifo_front(s: Seq<PendingApprovalV>, x: PendingApprovalV)
    ensures
        s.len() > 0 ==> s.push(x)[0] == s[0],
        s.len() == 0 ==> s.push(x)[0] == x,
        s.push(x).len() == s.len() + 1,
{
}

/// Removing an ID keeps the other items in their original order: the result
/// is the sequence with exactly the first item of that ID taken out, one item
/// shorter when the ID was present and unchanged otherwise.
pub proof fn law_remove_keeps_order(s: Seq<PendingApprovalV>, id: Seq<char>)
    ensures
        has_id(s, id) ==> exists|i: int|
            is_first_with_id(s, id, i) && without_first_id(s, id) == s.remove(i),
        has_id(s, id) ==> without_first_id(s, id).len() == s.len() - 1,
        !has_id(s, id) ==> without_first_id(s, id) == s,
{
    if has_id(s, id) {
        let k = choose|k: int| 0 <= k < s.len() && approval_id(s[k]) == id;
        let i = first_id_index(s, id, k);
        lemma_without_first_id(s, id, i);
    } else {
        lemma_without_absent_id(s, id);
    }
}

/// The first position holding ID `id`, given that position `k` holds it.
proof fn first_id_index(s: Seq<PendingApprovalV>, id: Seq<char>, k: int) -> (i: int)
    requires
        0 <= k < s.len(),
        approval_id(s[k]) == id,
    ensures
        is_first_with_id(s, id, i),
    decreases k,
{
    if exists|j: int| 0 <= j < k && approval_id(s[j]) == id {
        let j = choose|j: int| 0 <= j < k && approval_id(s[j]) == id;
        first_id_index(s, id, j)
    } else {
        k
    }
}

/// Adding an item whose ID is not yet queued and then removing that ID gives
/// back the queue as it was.
pub proof fn law_add_then_remove(s: Seq<PendingApprovalV>, x: PendingApprovalV)
    requires
        !has_id(s, approval_id(x)),
    ensures
        without_first_id(s.push(x), approval_id(x)) == s,
{
    let id = approval_id(x);
    assert(is_first_with_id(s.push(x), id, s.len() as int));
    lemma_without_first_id(s.push(x), id, s.len() as int);
    assert(s.push(x).remove(s.len() as int) =~= s);
}

} // verus!
