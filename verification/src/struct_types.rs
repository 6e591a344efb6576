//! Struct type hints: which struct a property path holds, for the paths whose
//! struct type the save does not record.
use vstd::prelude::*;
use crate::error::Error;
use crate::fstring::str_eq;

verus! {

/// The type of struct that a property holds.
#[derive(Debug, PartialEq, Eq)]
pub enum StructType {
    Guid,
    /// A struct known by name (engine structs other than GUIDs among them),
    /// or, with no name, one whose layout is worked out when reading.
    Struct(Option<String>),
    PalCharacterData,
    PalItemContainer,
    PalGroupData,
    PalDynamicItem,
    PalBuildProcess,
    PalGuildItemStorage,
    PalGuildLab,
    PalItemContainerSlots,
    PalCharacterContainer,
    PalConnector,
    PalBaseCamp,
    PalWork,
    PalWorkAssign,
    PalMapModel,
    PalMapConcreteModel,
    PalMapConcreteModelModule,
}

/// Model of [`StructType`].
pub ghost enum StructTypeView {
    Guid,
    Struct(Option<Seq<char>>),
    PalCharacterData,
    PalItemContainer,
    PalGroupData,
    PalDynamicItem,
    PalBuildProcess,
    PalGuildItemStorage,
    PalGuildLab,
    PalItemContainerSlots,
    PalCharacterContainer,
    PalConnector,
    PalBaseCamp,
    PalWork,
    PalWorkAssign,
    PalMapModel,
    PalMapConcreteModel,
    PalMapConcreteModelModule,
}

impl View for StructType {
    type V = StructTypeView;

    open spec fn view(&self) -> StructTypeView {
        match self {
            StructType::Guid => StructTypeView::Guid,
            StructType::Struct(None) => StructTypeView::Struct(None),
            StructType::Struct(Some(n)) => StructTypeView::Struct(Some(n@)),
            StructType::PalCharacterData => StructTypeView::PalCharacterData,
            StructType::PalItemContainer => StructTypeView::PalItemContainer,
            StructType::PalGroupData => StructTypeView::PalGroupData,
            StructType::PalDynamicItem => StructTypeView::PalDynamicItem,
            StructType::PalBuildProcess => StructTypeView::PalBuildProcess,
            StructType::PalGuildItemStorage => StructTypeView::PalGuildItemStorage,
            StructType::PalGuildLab => StructTypeView::PalGuildLab,
            StructType::PalItemContainerSlots => StructTypeView::PalItemContainerSlots,
            StructType::PalCharacterContainer => StructTypeView::PalCharacterContainer,
            StructType::PalConnector => StructTypeView::PalConnector,
            StructType::PalBaseCamp => StructTypeView::PalBaseCamp,
            StructType::PalWork => StructTypeView::PalWork,
            StructType::PalWorkAssign => StructTypeView::PalWorkAssign,
            StructType::PalMapModel => StructTypeView::PalMapModel,
            StructType::PalMapConcreteModel => StructTypeView::PalMapConcreteModel,
            StructType::PalMapConcreteModelModule => StructTypeView::PalMapConcreteModelModule,
        }
    }
}

/// The struct type that a name on the command line denotes: `Guid`, or
/// `Struct` for a struct to be worked out, or else the struct of that name.
pub open spec fn struct_type_from_name(n: Seq<char>) -> StructTypeView {
    if n == "Guid"@ {
        StructTypeView::Guid
    } else if n == "Struct"@ {
        StructTypeView::Struct(None)
    } else {
        StructTypeView::Struct(Some(n))
    }
}

impl StructType {
    /// The struct type that `n` names; see [`struct_type_from_name`].
    pub fn from_name(n: &str) -> (t: Self)
        ensures
            t@ == struct_type_from_name(n@),
    {
        if str_eq(n, "Guid") {
            StructType::Guid
        } else if str_eq(n, "Struct") {
            StructType::Struct(None)
        } else {
            StructType::Struct(Some(String::from_str(n)))
        }
    }

    /// A copy of this struct type.
    pub fn duplicate(&self) -> (t: Self)
        ensures
            t@ == self@,
    {
        match self {
            StructType::Guid => StructType::Guid,
            StructType::Struct(None) => StructType::Struct(None),
            StructType::Struct(Some(n)) => StructType::Struct(Some(n.clone())),
            StructType::PalCharacterData => StructType::PalCharacterData,
            StructType::PalItemContainer => StructType::PalItemContainer,
            StructType::PalGroupData => StructType::PalGroupData,
            StructType::PalDynamicItem => StructType::PalDynamicItem,
            StructType::PalBuildProcess => StructType::PalBuildProcess,
            StructType::PalGuildItemStorage => StructType::PalGuildItemStorage,
            StructType::PalGuildLab => StructType::PalGuildLab,
            StructType::PalItemContainerSlots => StructType::PalItemContainerSlots,
            StructType::PalCharacterContainer => StructType::PalCharacterContainer,
            StructType::PalConnector => StructType::PalConnector,
            StructType::PalBaseCamp => StructType::PalBaseCamp,
            StructType::PalWork => StructType::PalWork,
            StructType::PalWorkAssign => StructType::PalWorkAssign,
            StructType::PalMapModel => StructType::PalMapModel,
            StructType::PalMapConcreteModel => StructType::PalMapConcreteModel,
            StructType::PalMapConcreteModelModule => StructType::PalMapConcreteModelModule,
        }
    }
}

/// The hint table that a sequence of additions makes: a later addition for
/// a path replaces an earlier one.
pub open spec fn hints_map(es: Seq<(Seq<char>, StructTypeView)>) -> Map<Seq<char>, StructTypeView>
    decreases es.len(),
{
    if es.len() == 0 {
        Map::empty()
    } else {
        hints_map(es.drop_last()).insert(es.last().0, es.last().1)
    }
}

/// Struct type hints by property path.
#[derive(Debug)]
pub struct Types {
    entries: Vec<(String, StructType)>,
}

/// The model of the additions that a table holds.
pub open spec fn entry_views(es: Seq<(String, StructType)>) -> Seq<(Seq<char>, StructTypeView)> {
    es.map_values(|e: (String, StructType)| (e.0@, e.1@))
}

impl View for Types {
    type V = Map<Seq<char>, StructTypeView>;

    closed spec fn view(&self) -> Map<Seq<char>, StructTypeView> {
        hints_map(entry_views(self.entries@))
    }
}

/// Without a later addition for `k`, looking `k` up ignores the later additions.
proof fn lemma_hints_prefix(es: Seq<(Seq<char>, StructTypeView)>, i: int, k: Seq<char>)
    requires
        0 <= i <= es.len(),
        forall|j: int| i <= j < es.len() ==> (#[trigger] es[j]).0 != k,
    ensures
        hints_map(es).dom().contains(k) == hints_map(es.take(i)).dom().contains(k),
        hints_map(es).dom().contains(k) ==> hints_map(es)[k] == hints_map(es.take(i))[k],
    decreases es.len() - i,
{
    if i < es.len() {
        let p = es.drop_last();
        assert(p.len() == es.len() - 1);
        assert forall|j: int| i <= j < p.len() implies (#[trigger] p[j]).0 != k by {
            assert(p[j] == es[j]);
        }
        lemma_hints_prefix(p, i, k);
        assert(p.take(i) =~= es.take(i));
        assert(es.last() == es[es.len() - 1]);
    } else {
        assert(es.take(i) =~= es);
    }
}

impl Types {
    /// A table without hints.
    pub fn new() -> (t: Self)
        ensures
            t@ == Map::<Seq<char>, StructTypeView>::empty(),
    {
        let t = Types { entries: Vec::new() };
        assert(entry_views(t.entries@) =~= Seq::<(Seq<char>, StructTypeView)>::empty());
        t
    }

    /// Records that `path` holds structs of type `t`, replacing any earlier hint for it.
    pub fn add(&mut self, path: String, t: StructType)
        ensures
            final(self)@ == old(self)@.insert(path@, t@),
    {
        let ghost k = path@;
        let ghost v = t@;
        self.entries.push((path, t));
        proof {
            let es = entry_views(self.entries@);
            assert(es.drop_last() =~= entry_views(old(self).entries@));
            assert(es.last() == (k, v));
        }
    }

    /// The hint for `path`, if any.
    pub fn get(&self, path: &str) -> (r: Option<&StructType>)
        ensures
            match r {
                Some(t) => self@.dom().contains(path@) && self@[path@] == t@,
                None => !self@.dom().contains(path@),
            },
    {
        let ghost es = entry_views(self.entries@);
        let mut i = self.entries.len();
        while i > 0
            invariant
                i <= self.entries@.len(),
                es == entry_views(self.entries@),
                forall|j: int| i <= j < es.len() ==> (#[trigger] es[j]).0 != path@,
            decreases i,
        {
            let e = &self.entries[i - 1];
            if str_eq(e.0.as_str(), path) {
                proof {
                    lemma_hints_prefix(es, i as int, path@);
                    let p = es.take(i as int);
                    assert(p.last() == es[i - 1]);
                }
                return Some(&e.1);
            }
            i = i - 1;
        }
        proof {
            lemma_hints_prefix(es, 0, path@);
            assert(es.take(0) =~= Seq::<(Seq<char>, StructTypeView)>::empty());
        }
        None
    }
}

/// After a hint is added for a path, looking the path up gives that hint,
/// and the hints for other paths are unchanged.
pub proof fn lemma_add_then_get(m: Map<Seq<char>, StructTypeView>, path: Seq<char>, t: StructTypeView, other: Seq<char>)
    requires
        other != path,
    ensures
        m.insert(path, t).dom().contains(path),
        m.insert(path, t)[path] == t,
        m.insert(path, t).dom().contains(other) == m.dom().contains(other),
        m.dom().contains(other) ==> m.insert(path, t)[other] == m[other],
{
}

/// The split of a `path=Type` argument at its last `=`: the path, and the
/// struct type that the rest names; none without an `=`.
pub open spec fn parse_type_spec(t: Seq<char>) -> Option<(Seq<char>, StructTypeView)> {
    if exists|i: int| 0 <= i < t.len() && t[i] == '=' {
        let i = choose|i: int| 0 <= i < t.len() && t[i] == '=' && forall|j: int| i < j < t.len() ==> t[j] != '=';
        Some((t.take(i), struct_type_from_name(t.skip(i + 1))))
    } else {
        None
    }
}

/// Parses a `path=Type` argument, splitting at the last `=`.
pub fn parse_type(t: &str) -> (res: Result<(String, StructType), Error>)
    ensures
        match parse_type_spec(t@) {
            Some((p, st)) => res matches Ok((ps, sty)) && ps@ == p && sty@ == st,
            None => res == Err::<(String, StructType), Error>(Error::MalformedType),
        },
{
    let n = t.unicode_len();
    let mut i = n;
    while i > 0
        invariant
            i <= n,
            n == t@.len(),
            forall|j: int| i <= j < n ==> t@[j] != '=',
        decreases i,
    {
        if t.get_char(i - 1) == '=' {
            let k = i - 1;
            let l = t.substring_char(0, k);
            let r = t.substring_char(k + 1, n);
            proof {
                let w = choose|w: int| 0 <= w < t@.len() && t@[w] == '=' && forall|j: int| w < j < t@.len() ==> t@[j] != '=';
                assert(0 <= k < t@.len() && t@[k as int] == '=' && forall|j: int| k < j < t@.len() ==> t@[j] != '=');
                if w < k {
                    assert(t@[k as int] != '=');
                } else if w > k {
                    assert(t@[w] != '=');
                }
                assert(l@ =~= t@.take(k as int));
                assert(r@ =~= t@.skip(k + 1));
            }
            return Ok((String::from_str(l), StructType::from_name(r)));
        }
        i = i - 1;
    }
    Err(Error::MalformedType)
}

} // verus!
