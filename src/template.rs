//! A registered template: its name and where it came from.

use crate::names::{lemma_name_lt_irreflexive, lemma_name_lt_total, name_less, name_lt};
use core::cmp::Ordering;
use vstd::prelude::*;

verus! {

/// Where a template came from.
#[derive(Debug, Clone, Copy, PartialEq, Eq, Structural)]
pub enum TemplateType {
    /// Saved from a local directory.
    Default,
    /// Imported from a remote catalogue.
    Remote,
}

/// A registry entry. Its identity is its name: the type is provenance only,
/// and takes no part in equality or order.
#[derive(Debug)]
pub struct Template {
    pub name: String,
    pub template_type: TemplateType,
}

impl Template {
    pub fn new(name: &str, template_type: TemplateType) -> (r: Self)
        ensures
            r.name@ == name@,
            r.template_type == template_type,
    {
        Self { name: name.to_owned(), template_type }
    }

    /// Order of two entries: that of their names.
    pub open spec fn order_spec(&self, other: &Template) -> Ordering {
        if name_lt(self.name@, other.name@) {
            Ordering::Less
        } else if self.name@ == other.name@ {
            Ordering::Equal
        } else {
            Ordering::Greater
        }
    }
}

impl PartialEq for Template {
    fn eq(&self, other: &Template) -> (r: bool) {
        self.name == other.name
    }
}

impl vstd::std_specs::cmp::PartialEqSpecImpl for Template {
    open spec fn obeys_eq_spec() -> bool {
        true
    }

    open spec fn eq_spec(&self, other: &Template) -> bool {
        self.name@ == other.name@
    }
}

impl Eq for Template {

}

impl PartialOrd for Template {
    fn partial_cmp(&self, other: &Template) -> (r: Option<Ordering>) {
        proof {
            lemma_name_lt_irreflexive(self.name@);
            lemma_name_lt_total(self.name@, other.name@);
        }
        if name_less(self.name.as_str(), other.name.as_str()) {
            Some(Ordering::Less)
        } else if self.name == other.name {
            Some(Ordering::Equal)
        } else {
            Some(Ordering::Greater)
        }
    }
}

impl vstd::std_specs::cmp::PartialOrdSpecImpl for Template {
    open spec fn obeys_partial_cmp_spec() -> bool {
        true
    }

    open spec fn partial_cmp_spec(&self, other: &Template) -> Option<Ordering> {
        Some(self.order_spec(other))
    }
}

} // verus!
