//! The exported symbols of one build: every one is registered once, and a
//! declaration whose wrappers would export a name a second time is refused.
use vstd::prelude::*;
use crate::decl::{Diagnostic, DiagnosticKind};
use crate::emit::{artifact_views, Artifact, ArtifactView};
use crate::text::{same_text, views};

verus! {

/// No name occurs twice.
pub open spec fn distinct(s: Seq<Seq<char>>) -> bool {
    forall|i: int, j: int| 0 <= i < j < s.len() ==> s[i] != s[j]
}

/// The exported symbols among the first `k` artifacts, in order.
pub open spec fn exported_symbols(v: Seq<ArtifactView>, k: nat) -> Seq<Seq<char>>
    decreases k,
{
    if k == 0 || k > v.len() {
        Seq::empty()
    } else {
        let before = exported_symbols(v, (k - 1) as nat);
        if v[k - 1].exported {
            before.push(v[k - 1].symbol)
        } else {
            before
        }
    }
}

pub open spec fn all_exported(v: Seq<Artifact>) -> Seq<Seq<char>> {
    exported_symbols(artifact_views(v), v.len())
}

pub struct SymbolRegistry {
    names: Vec<String>,
}

impl View for SymbolRegistry {
    type V = Seq<Seq<char>>;

    closed spec fn view(&self) -> Seq<Seq<char>> {
        views(self.names@)
    }
}

fn contains_name(names: &Vec<String>, name: &str) -> (r: bool)
    ensures
        r == views(names@).contains(name@),
{
    let mut i: usize = 0;
    while i < names.len()
        invariant
            i <= names.len(),
            forall|j: int| 0 <= j < i ==> names@[j]@ != name@,
        decreases names.len() - i,
    {
        if same_text(names[i].as_str(), name) {
            assert(views(names@)[i as int] == name@);
            return true;
        }
        i = i + 1;
    }
    false
}

impl SymbolRegistry {
    /// Every registered name is registered once.
    pub closed spec fn wf(&self) -> bool {
        distinct(self@)
    }

    pub fn new() -> (r: SymbolRegistry)
        ensures
            r@ == Seq::<Seq<char>>::empty(),
            r.wf(),
    {
        let r = SymbolRegistry { names: Vec::new() };
        assert(r@ =~= Seq::<Seq<char>>::empty());
        r
    }

    /// Whether `name` has been registered.
    pub fn contains(&self, name: &str) -> (r: bool)
        ensures
            r == self@.contains(name@),
    {
        contains_name(&self.names, name)
    }

    /// Registers the exported symbols of a declaration's artifacts.  Fails,
    /// registering nothing, when one of them is registered already or occurs
    /// twice among them; the diagnostic names it.
    pub fn register(&mut self, artifacts: &Vec<Artifact>) -> (r: Result<(), Diagnostic>)
        requires
            old(self).wf(),
        ensures
            final(self).wf(),
            r is Ok <==> distinct(old(self)@ + all_exported(artifacts@)),
            r is Ok ==> final(self)@ == old(self)@ + all_exported(artifacts@),
            r matches Err(e) ==> final(self)@ == old(self)@ && e.kind == DiagnosticKind::Collision
                && all_exported(artifacts@).contains(e.subject@),
    {
        let ghost start = self@;
        let mut names: Vec<String> = Vec::new();
        let mut i: usize = 0;
        while i < self.names.len()
            invariant
                i <= self.names.len(),
                views(names@) =~= views(self.names@.take(i as int)),
                self@ == start,
            decreases self.names.len() - i,
        {
            let ghost before = names@;
            names.push(self.names[i].clone());
            assert(views(names@) =~= views(before).push(self.names@[i as int]@));
            assert(self.names@.take(i + 1) =~= self.names@.take(i as int).push(self.names@[i as int]));
            i = i + 1;
        }
        assert(self.names@.take(self.names.len() as int) =~= self.names@);
        let mut k: usize = 0;
        while k < artifacts.len()
            invariant
                k <= artifacts.len(),
                self@ == start,
                distinct(start),
                views(names@) == start + exported_symbols(artifact_views(artifacts@), k as nat),
                distinct(views(names@)),
            decreases artifacts.len() - k,
        {
            let a = &artifacts[k];
            if a.exported {
                let ghost so_far = views(names@);
                if contains_name(&names, a.symbol.as_str()) {
                    proof {
                        let idx = choose|j: int| 0 <= j < so_far.len() && so_far[j] == a.symbol@;
                        let v = artifact_views(artifacts@);
                        let full = start + all_exported(artifacts@);
                        lemma_exported_extends(v, k as nat, artifacts@.len());
                        let pos = so_far.len() as int;
                        assert(full[idx] == a.symbol@);
                        assert(full[pos] == a.symbol@);
                        assert(idx < pos);
                        assert(!distinct(full));
                        lemma_exported_member(artifact_views(artifacts@), k as nat, artifacts@.len());
                    }
                    return Err(Diagnostic { kind: DiagnosticKind::Collision, subject: a.symbol.clone() });
                }
                let ghost before = names@;
                names.push(a.symbol.clone());
                assert(views(names@) =~= views(before).push(a.symbol@));
            }
            k = k + 1;
        }
        self.names = names;
        Ok(())
    }
}

/// The exported symbols of a prefix are a prefix of those of a longer one.
proof fn lemma_exported_extends(v: Seq<ArtifactView>, k: nat, m: nat)
    requires
        k <= m <= v.len(),
    ensures
        exported_symbols(v, m).len() >= exported_symbols(v, k).len(),
        forall|j: int|
            0 <= j < exported_symbols(v, k).len() ==> exported_symbols(v, m)[j]
                == exported_symbols(v, k)[j],
        k < m && v[k as int].exported ==> exported_symbols(v, m).len() > exported_symbols(v, k).len()
            && exported_symbols(v, m)[exported_symbols(v, k).len() as int] == v[k as int].symbol,
    decreases m,
{
    if m > k {
        lemma_exported_extends(v, k, (m - 1) as nat);
        if m - 1 > k {
            lemma_exported_extends(v, (k + 1) as nat, (m - 1) as nat);
        }
    }
}

proof fn lemma_exported_member(v: Seq<ArtifactView>, k: nat, m: nat)
    requires
        k < m <= v.len(),
        v[k as int].exported,
    ensures
        exported_symbols(v, m).contains(v[k as int].symbol),
{
    lemma_exported_extends(v, k, m);
    assert(exported_symbols(v, m)[exported_symbols(v, k).len() as int] == v[k as int].symbol);
}

} // verus!
