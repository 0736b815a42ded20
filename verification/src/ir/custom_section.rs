//! Custom sections of a module: named byte strings that the module carries
//! along without giving them a meaning.

use vstd::prelude::*;
use vstd::string::StringExecFns;
use crate::ir::id::CustomSectionID;

verus! {

/// A single custom section: its name and its content.
#[derive(Clone, Debug)]
pub struct CustomSection<'a> {
    pub name: &'a str,
    pub data: &'a [u8],
}

impl<'a> CustomSection<'a> {
    /// The custom section with the given name and content.
    pub fn new(name: &'a str, data: &'a [u8]) -> (section: Self)
        ensures
            section.name == name,
            section.data == data,
    {
        CustomSection { name, data }
    }
}

/// The least index at which `names` holds `name`, if it holds it at all.
pub open spec fn first_index_of(names: Seq<Seq<char>>, name: Seq<char>) -> Option<int>
    decreases names.len(),
{
    if names.len() == 0 {
        None
    } else if names.first() == name {
        Some(0)
    } else {
        match first_index_of(names.drop_first(), name) {
            Some(i) => Some(i + 1),
            None => None,
        }
    }
}

/// What `first_index_of` finds is an index at which the name stands, and no
/// smaller index holds it; it finds nothing only where no index holds it.
pub proof fn lemma_first_index_of(names: Seq<Seq<char>>, name: Seq<char>)
    ensures
        match first_index_of(names, name) {
            Some(i) => 0 <= i < names.len() && names[i] == name && forall|j: int|
                0 <= j < i ==> names[j] != name,
            None => forall|j: int| 0 <= j < names.len() ==> names[j] != name,
        },
    decreases names.len(),
{
    if names.len() > 0 && names.first() != name {
        let rest = names.drop_first();
        lemma_first_index_of(rest, name);
        match first_index_of(rest, name) {
            Some(i) => {
                assert forall|j: int| 0 <= j < i + 1 implies names[j] != name by {
                    if j > 0 {
                        assert(rest[j - 1] != name);
                    }
                }
            },
            None => {
                assert forall|j: int| 0 <= j < names.len() implies names[j] != name by {
                    if j > 0 {
                        assert(rest[j - 1] != name);
                    }
                }
            },
        }
    }
}

/// The custom sections of a module, in the order in which they occur.
#[derive(Clone, Debug)]
pub struct CustomSections<'a> {
    custom_sections: Vec<CustomSection<'a>>,
}

impl<'a> View for CustomSections<'a> {
    type V = Seq<CustomSection<'a>>;

    closed spec fn view(&self) -> Seq<CustomSection<'a>> {
        self.custom_sections@
    }
}

impl<'a> Default for CustomSections<'a> {
    /// No custom sections.
    fn default() -> (sections: Self)
        ensures
            sections@.len() == 0,
    {
        CustomSections { custom_sections: Vec::new() }
    }
}

impl<'a> CustomSections<'a> {
    /// The names of the sections, in order.
    pub open spec fn names(&self) -> Seq<Seq<char>> {
        Seq::new(self@.len(), |i: int| self@[i].name@)
    }

    /// The custom sections with the given names and contents, in order.
    pub fn new(custom_sections: Vec<(&'a str, &'a [u8])>) -> (sections: Self)
        ensures
            sections@.len() == custom_sections@.len(),
            forall|i: int|
                0 <= i < custom_sections@.len() ==> sections@[i].name == custom_sections@[i].0
                    && sections@[i].data == custom_sections@[i].1,
    {
        let mut sections: Vec<CustomSection<'a>> = Vec::new();
        let mut i: usize = 0;
        while i < custom_sections.len()
            invariant
                i <= custom_sections@.len(),
                sections@.len() == i,
                forall|j: int|
                    0 <= j < i ==> sections@[j].name == custom_sections@[j].0 && sections@[j].data
                        == custom_sections@[j].1,
            decreases custom_sections@.len() - i,
        {
            sections.push(CustomSection::new(custom_sections[i].0, custom_sections[i].1));
            i = i + 1;
        }
        CustomSections { custom_sections: sections }
    }

    /// The identifier of the first section with the given name.
    ///
    /// An identifier is a 32-bit index: a section beyond that range is not
    /// found.
    pub fn get_id(&self, name: String) -> (r: Option<CustomSectionID>)
        ensures
            match first_index_of(self.names(), name@) {
                Some(i) => if i <= u32::MAX {
                    r == Some(CustomSectionID(i as u32))
                } else {
                    r is None
                },
                None => r is None,
            },
    {
        let mut index: usize = 0;
        while index < self.custom_sections.len() && index <= u32::MAX as usize
            invariant
                index <= self@.len(),
                forall|j: int| 0 <= j < index ==> self.names()[j] != name@,
            decreases self@.len() - index,
        {
            if String::from_str(self.custom_sections[index].name) == name {
                proof {
                    lemma_first_index_of(self.names(), name@);
                    assert(self.names()[index as int] == name@);
                }
                return Some(CustomSectionID(index as u32));
            }
            index = index + 1;
        }
        proof {
            lemma_first_index_of(self.names(), name@);
        }
        None
    }

    /// The custom section with the given identifier, which must be one of
    /// this module.
    pub fn get_by_id(&self, custom_section_id: CustomSectionID) -> (section: &CustomSection<'a>)
        requires
            custom_section_id.0 < self@.len(),
        ensures
            *section == self@[custom_section_id.0 as int],
    {
        &self.custom_sections[custom_section_id.0 as usize]
    }

    /// Deletes the custom section with the given identifier. The sections
    /// after it move up by one. Nothing happens where no section has the
    /// identifier.
    pub fn delete(&mut self, id: CustomSectionID)
        ensures
            id.0 < old(self)@.len() ==> final(self)@ == old(self)@.remove(id.0 as int),
            id.0 >= old(self)@.len() ==> final(self)@ == old(self)@,
    {
        if (id.0 as usize) < self.custom_sections.len() {
            self.custom_sections.remove(id.0 as usize);
        }
    }

    /// The number of custom sections.
    pub fn len(&self) -> (n: usize)
        ensures
            n == self@.len(),
    {
        self.custom_sections.len()
    }

    /// Whether there is no custom section.
    pub fn is_empty(&self) -> (r: bool)
        ensures
            r == (self@.len() == 0),
    {
        self.custom_sections.is_empty()
    }

    /// An iterator over the custom sections, in order.
    pub fn iter(&self) -> (it: std::slice::Iter<'_, CustomSection<'a>>)
        ensures
            vstd::std_specs::slice::into_iter_elts(it) == self@,
    {
        self.custom_sections.iter()
    }
}

} // verus!
