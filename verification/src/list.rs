//! A singly linked list grown only by prepending, with a full traversal that
//! counts the nodes it visits. The list's model is the sequence of payloads
//! from the head to the terminal `None`, so index 0 is the most recently
//! pushed value and the model's order is the traversal order.

use vstd::prelude::*;

verus! {

struct Node<T> {
    data: T,
    next: Option<Box<Node<T>>>,
}

/// A singly linked list: an optional owned head node and a stored node count.
pub struct LinkedList<T> {
    head: Option<Box<Node<T>>>,
    count: usize,
}

/// The payloads reachable from `link`, in link order.
spec fn link_view<T>(link: Option<Box<Node<T>>>) -> Seq<T>
    decreases link,
{
    match link {
        None => Seq::empty(),
        Some(node) => seq![node.data] + link_view(node.next),
    }
}

impl<T> View for LinkedList<T> {
    type V = Seq<T>;

    closed spec fn view(&self) -> Seq<T> {
        link_view(self.head)
    }
}

impl<T> LinkedList<T> {
    /// The stored count agrees with the number of reachable nodes.
    pub closed spec fn wf(&self) -> bool {
        self.count == self@.len()
    }

    /// Creates an empty list.
    pub fn new() -> (l: Self)
        ensures
            l.wf(),
            l@ == Seq::<T>::empty(),
    {
        LinkedList { head: None, count: 0 }
    }

    /// Prepends `data`: the new node owns the old head as its successor and
    /// becomes the head, so the model gains `data` at the front.
    pub fn push(&mut self, data: T)
        requires
            old(self).wf(),
            old(self)@.len() < usize::MAX,
        ensures
            final(self).wf(),
            final(self)@ == seq![data] + old(self)@,
    {
        let new_node = Box::new(Node { data, next: self.head.take() });
        self.head = Some(new_node);
        self.count = self.count + 1;
    }

    /// Walks from the head to the terminal `None`, counting the nodes
    /// visited. Visits every node exactly once, head first, and does not
    /// change the list, so the count it returns is the model's length.
    pub fn traverse(&self) -> (visited: usize)
        requires
            self.wf(),
        ensures
            visited == self@.len(),
    {
        let mut current: &Option<Box<Node<T>>> = &self.head;
        let mut visited: usize = 0;
        while current.is_some()
            invariant
                visited + link_view(*current).len() == self@.len(),
                self@.len() <= usize::MAX,
            decreases link_view(*current).len(),
        {
            let node = current.as_ref().unwrap();
            visited = visited + 1;
            current = &node.next;
        }
        visited
    }

    /// Samples the monotonic clock, traverses the whole list, samples again,
    /// and returns the visited count with the elapsed wall time. The count is
    /// the model's length; the duration is a clock reading, of which nothing
    /// is promised.
    pub fn traverse_and_time(&self) -> (r: (usize, std::time::Duration))
        requires
            self.wf(),
        ensures
            r.0 == self@.len(),
    {
        let start_time = std::time::Instant::now();
        let visited = self.traverse();
        let elapsed_time = start_time.elapsed();
        (visited, elapsed_time)
    }
}

/// Each prepend grows the model by exactly one node, placed at the front,
/// and leaves every earlier node in place one position later. So starting
/// from the empty model, any run of prepends yields a model — and with it a
/// traversal count — of exactly the number of prepends, listed newest first.
pub proof fn lemma_prepend_grows_by_one<T>(s: Seq<T>, x: T)
    ensures
        (seq![x] + s).len() == s.len() + 1,
        (seq![x] + s)[0] == x,
        forall|i: int| 0 <= i < s.len() ==> (seq![x] + s)[i + 1] == s[i],
{
}

/// Traversal takes the list by shared reference and returns the model's
/// length, so traversing the same list twice reports the same count both
/// times.
pub proof fn lemma_traversal_idempotent<T>(l: LinkedList<T>, c1: usize, c2: usize)
    requires
        c1 == l@.len(),
        c2 == l@.len(),
    ensures
        c1 == c2,
{
}

/// Builds a list by prepending the values `0, 1, ..., n - 1` in that order,
/// as the benchmark does: the resulting model lists them in reverse, most
/// recently pushed first.
pub fn build_list(n: usize) -> (l: LinkedList<usize>)
    ensures
        l.wf(),
        l@.len() == n,
        forall|i: int| 0 <= i < n ==> l@[i] == n - 1 - i,
{
    let mut list = LinkedList::<usize>::new();
    let mut i: usize = 0;
    while i < n
        invariant
            i <= n,
            list.wf(),
            list@.len() == i,
            forall|k: int| 0 <= k < i ==> list@[k] == i - 1 - k,
        decreases n - i,
    {
        list.push(i);
        i = i + 1;
    }
    list
}

} // verus!
