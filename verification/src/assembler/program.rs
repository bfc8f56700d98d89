use bimap::BiBTreeMap;
use std::collections::BTreeMap;
use vstd::prelude::*;
use vstd::string::*;
use vstd::std_specs::cmp::OrdSpec;
use vstd::std_specs::iter::IteratorSpec;

verus! {

broadcast use {
    vstd::std_specs::btree::group_btree_axioms,
    vstd::laws_cmp::group_laws_cmp,
};

/// The bidirectional map of the `bimap` crate, held opaque: what it holds is named by
/// `source_map_pairs`.
#[verifier::external_type_specification]
#[verifier::external_body]
#[verifier::reject_recursive_types(L)]
#[verifier::reject_recursive_types(R)]
pub struct ExBiBTreeMap<L, R>(BiBTreeMap<L, R>);

/// A source map: instruction addresses (left) to source line numbers (right).
pub type SourceMap = BiBTreeMap<u32, usize>;

/// The left-to-right pairs of a source map: instruction addresses to source line numbers (what
/// a `BiBTreeMap` holds; the wrappers below say how its methods read it).
pub uninterp spec fn source_map_pairs(m: SourceMap) -> Map<u32, usize>;

/// A new source map: `BiBTreeMap::new`, which holds no pair.
#[verifier::external_body]
fn source_map_new() -> (r: SourceMap)
    ensures
        source_map_pairs(r).is_empty(),
{
    BiBTreeMap::new()
}

/// The smallest address of a source map: the first item of `BiBTreeMap::left_values`, which
/// walks the left values in ascending order; `None` exactly when the map holds no pair.
#[verifier::external_body]
fn source_map_first_address(m: &SourceMap) -> (r: Option<u32>)
    ensures
        match r {
            None => source_map_pairs(*m).is_empty(),
            Some(a) => source_map_pairs(*m).contains_key(a) && forall|k: u32|
                #[trigger] source_map_pairs(*m).contains_key(k) ==> a <= k,
        },
{
    m.left_values().next().copied()
}

/// The line number of an address: `BiBTreeMap::get_by_left`, which gives the right value paired
/// with the left value, or `None` when the address has no pair.
#[verifier::external_body]
pub(crate) fn source_map_line(m: &SourceMap, address: u32) -> (r: Option<usize>)
    ensures
        match r {
            None => !source_map_pairs(*m).contains_key(address),
            Some(line) => source_map_pairs(*m).contains_key(address) && source_map_pairs(*m)[address]
                == line,
        },
{
    m.get_by_left(&address).copied()
}

/// The sections of a program.
#[derive(Debug, PartialEq, Clone)]
pub enum Section {
    Absolute,
    Data,
    Text,
    Bss,
    User(String),
}

/// The name of a section.
pub open spec fn section_name(s: Section) -> Seq<char> {
    match s {
        Section::Absolute => "absolute"@,
        Section::Data => "data"@,
        Section::Text => "text"@,
        Section::Bss => "bss"@,
        Section::User(name) => name@,
    }
}

/// The section a name stands for: one of the four built-in sections, else a section of the
/// user's.
pub open spec fn section_named(s: Section, name: Seq<char>) -> bool {
    if name == "absolute"@ {
        s == Section::Absolute
    } else if name == "data"@ {
        s == Section::Data
    } else if name == "text"@ {
        s == Section::Text
    } else if name == "bss"@ {
        s == Section::Bss
    } else {
        s matches Section::User(n) && n@ == name
    }
}

impl Section {
    /// The section a name stands for (`absolute`, `data`, `text`, `bss`, or a user section).
    pub fn from_name(name: &str) -> (r: Self)
        ensures
            section_named(r, name@),
    {
        let n = String::from_str(name);
        if n == String::from_str("absolute") {
            Section::Absolute
        } else if n == String::from_str("data") {
            Section::Data
        } else if n == String::from_str("text") {
            Section::Text
        } else if n == String::from_str("bss") {
            Section::Bss
        } else {
            Section::User(n)
        }
    }

    /// The name of the section.
    pub fn name(&self) -> (r: String)
        ensures
            r@ == section_name(*self),
    {
        match self {
            Section::Absolute => String::from_str("absolute"),
            Section::Data => String::from_str("data"),
            Section::Text => String::from_str("text"),
            Section::Bss => String::from_str("bss"),
            Section::User(name) => name.clone(),
        }
    }
}

/// Naming a section and reading the name back gives the section again.
pub proof fn lemma_section_name_round_trip(s: Section, t: Section)
    requires
        section_named(t, section_name(s)),
        s matches Section::User(n) ==> n@ != "absolute"@ && n@ != "data"@ && n@ != "text"@ && n@
            != "bss"@,
    ensures
        section_name(t) == section_name(s),
{
    reveal_strlit("absolute");
    reveal_strlit("data");
    reveal_strlit("text");
    reveal_strlit("bss");
}

/// An assembled program: its instruction and initial data memories (byte addressed), and the
/// source line of each instruction address.
#[derive(Debug)]
pub struct AssembledProgram {
    /// Instruction memory: address to byte.
    pub instruction_memory: BTreeMap<u32, u8>,
    /// Initial data memory: address to byte.
    pub initial_data_memory: BTreeMap<u32, u8>,
    /// Instruction addresses (left) to source line numbers (right).
    pub source_map: SourceMap,
}

/// An assembled program as plain values.
pub struct ProgramState {
    pub instruction_memory: Map<u32, u8>,
    pub initial_data_memory: Map<u32, u8>,
    pub source_map: Map<u32, usize>,
}

impl View for AssembledProgram {
    type V = ProgramState;

    open spec fn view(&self) -> ProgramState {
        ProgramState {
            instruction_memory: self.instruction_memory@,
            initial_data_memory: self.initial_data_memory@,
            source_map: source_map_pairs(self.source_map),
        }
    }
}

/// The smallest key of a map of addresses, or 0 for an empty map.
pub open spec fn first_address<V>(m: Map<u32, V>) -> u32 {
    if m.is_empty() {
        0
    } else {
        choose|a: u32| m.contains_key(a) && forall|k: u32| #[trigger] m.contains_key(k) ==> a <= k
    }
}

/// Where a section starts: the first instruction address for the text section and the first
/// data address for the data section (0 when there is none).
pub open spec fn spec_section_start(p: ProgramState, section: Section) -> u32 {
    match section {
        Section::Text => first_address(p.source_map),
        _ => first_address(p.initial_data_memory),
    }
}

/// The first key of a map's ascending key sequence is its smallest key.
proof fn lemma_first_key_is_smallest(m: &BTreeMap<u32, u8>)
    ensures
        ({
            let ks = vstd::std_specs::btree::spec_keys_iter(m).remaining();
            &&& ks.len() == 0 <==> m@.is_empty()
            &&& ks.len() > 0 ==> first_address(m@) == *ks[0]
        }),
{
    broadcast use {
        vstd::std_specs::btree::axiom_spec_keys_iter,
        vstd::std_specs::btree::axiom_increasing_seq_meaning,
    };

    let ks = vstd::std_specs::btree::spec_keys_iter(m).remaining();
    let us = ks.unref();
    assert(us.to_set() == m@.dom());
    assert(us.len() == ks.len());
    if ks.len() == 0 {
        assert(m@.dom() =~= Set::<u32>::empty());
        assert(m@.is_empty());
    } else {
        let a = *ks[0];
        assert(us[0] == a);
        assert(us.to_set().contains(a));
        assert(m@.contains_key(a));
        assert forall|k: u32| #[trigger] m@.contains_key(k) implies a <= k by {
            assert(us.to_set().contains(k));
            let j = choose|j: int| 0 <= j < us.len() && us[j] == k;
            if j > 0 {
                assert(*ks[j] == k);
                assert(vstd::laws_cmp::obeys_cmp::<&u32>());
                vstd::std_specs::btree::axiom_increasing_seq_meaning::<&u32>(ks);
                assert(vstd::std_specs::btree::increasing_seq(ks));
                assert(0 < j < ks.len());
                assert(OrdSpec::cmp_spec(&ks[0], &ks[j]) is Less);
            }
        }
        let c = first_address(m@);
        assert(!m@.is_empty());
        assert(m@.contains_key(c) && forall|k: u32| #[trigger] m@.contains_key(k) ==> c <= k);
        assert(a <= c && c <= a);
    }
}

impl AssembledProgram {
    /// Where the text or data section starts (0 when the section is empty); only these two
    /// sections are supported.
    pub fn get_section_start(&self, section: Section) -> (r: u32)
        requires
            section == Section::Text || section == Section::Data,
        ensures
            r == spec_section_start(self@, section),
    {
        match section {
            Section::Text => match source_map_first_address(&self.source_map) {
                Some(a) => a,
                None => 0,
            },
            _ => {
                proof {
                    lemma_first_key_is_smallest(&self.initial_data_memory);
                }
                let mut first: u32 = 0;
                for k in iter: self.initial_data_memory.keys()
                    invariant_except_break
                        iter.index() == 0,
                        first == 0,
                        iter.seq() == vstd::std_specs::btree::spec_keys_iter(
                            &self.initial_data_memory,
                        ).remaining(),
                    ensures
                        iter.seq() == vstd::std_specs::btree::spec_keys_iter(
                            &self.initial_data_memory,
                        ).remaining(),
                        iter.seq().len() == 0 ==> first == 0,
                        iter.seq().len() > 0 ==> first == *iter.seq()[0],
                {
                    first = *k;
                    break;
                }
                first
            },
        }
    }

    /// The memories and source map that the emulator reads: instruction memory, source map and
    /// initial data memory.
    pub fn emulator_maps(&self) -> (r: (&BTreeMap<u32, u8>, &SourceMap, &BTreeMap<u32, u8>))
        ensures
            r.0@ == self@.instruction_memory,
            source_map_pairs(*r.1) == self@.source_map,
            r.2@ == self@.initial_data_memory,
    {
        (&self.instruction_memory, &self.source_map, &self.initial_data_memory)
    }

    /// A program with empty memories and an empty source map.
    pub fn empty() -> (p: Self)
        ensures
            p@.instruction_memory == Map::<u32, u8>::empty(),
            p@.initial_data_memory == Map::<u32, u8>::empty(),
            p@.source_map == Map::<u32, usize>::empty(),
    {
        AssembledProgram {
            instruction_memory: BTreeMap::new(),
            initial_data_memory: BTreeMap::new(),
            source_map: source_map_new(),
        }
    }
}

} // verus!
