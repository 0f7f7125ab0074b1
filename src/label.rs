//! The label table: an append-only list of names indexed by handles.
use vstd::prelude::*;

verus! {

/// A handle to a name in a [`Labels`] table: the position at which the name
/// was added.
#[derive(Clone, Copy, Debug, PartialEq, Eq, Hash, Structural)]
pub struct Label(usize);

impl View for Label {
    type V = nat;

    closed spec fn view(&self) -> nat {
        self.0 as nat
    }
}

/// The names of the labels, in the order they were added.
pub struct Labels {
    labels: Vec<String>,
}

impl View for Labels {
    type V = Seq<Seq<char>>;

    closed spec fn view(&self) -> Seq<Seq<char>> {
        self.labels@.map_values(|s: String| s@)
    }
}

impl Labels {
    /// An empty table.
    pub fn new() -> (r: Labels)
        ensures
            r@ == Seq::<Seq<char>>::empty(),
    {
        let r = Labels { labels: Vec::new() };
        assert(r@ =~= Seq::<Seq<char>>::empty());
        r
    }

    /// Appends `label` and returns the handle of the new entry, which is its
    /// position. Equal names are not merged.
    pub fn add(&mut self, label: &str) -> (r: Label)
        requires
            old(self)@.len() < usize::MAX,
        ensures
            final(self)@ == old(self)@.push(label@),
            r@ == old(self)@.len(),
    {
        let index = self.labels.len();
        self.labels.push(label.to_owned());
        assert(self@ =~= old(self)@.push(label@));
        Label(index)
    }

    /// The name behind `label`.
    pub fn resolve(&self, label: Label) -> (r: &str)
        requires
            label@ < self@.len(),
        ensures
            r@ == self@[label@ as int],
    {
        self.labels[label.0].as_str()
    }
}

/// Adding a name and resolving the handle that came back gives the name,
/// also after further additions; and two additions, of equal names or not,
/// give two different handles. Here `t` is the table before the additions,
/// `h1` the handle [`Labels::add`] returns for `x` and `h2` the one it then
/// returns for `y`.
pub proof fn lemma_add_then_resolve(t: Seq<Seq<char>>, x: Seq<char>, y: Seq<char>, h1: Label, h2: Label)
    requires
        h1@ == t.len(),
        h2@ == t.push(x).len(),
    ensures
        t.push(x)[h1@ as int] == x,
        t.push(x).push(y)[h1@ as int] == x,
        t.push(x).push(y)[h2@ as int] == y,
        h1 != h2,
{
}

} // verus!
