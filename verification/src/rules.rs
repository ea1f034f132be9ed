//! The automation service's rule table, and the resolution of rule names.

use vstd::hash_map::StringHashMap;
use vstd::prelude::*;
use vstd::string::*;

verus! {

/// The rule table of the automation service: rule name to rule identifier.
pub struct RuleTable {
    rules: StringHashMap<String>,
}

impl View for RuleTable {
    type V = Map<Seq<char>, Seq<char>>;

    closed spec fn view(&self) -> Map<Seq<char>, Seq<char>> {
        self.rules@.map_values(|id: String| id@)
    }
}

impl RuleTable {
    /// A table without rules.
    pub fn new() -> (table: RuleTable)
        ensures
            table@ == Map::<Seq<char>, Seq<char>>::empty(),
    {
        let table = RuleTable { rules: StringHashMap::new() };
        assert(table@ =~= Map::<Seq<char>, Seq<char>>::empty());
        table
    }

    /// Records that the rule called `name` has identifier `id`, in place of
    /// what the table held for that name.
    pub fn insert(&mut self, name: String, id: String)
        ensures
            final(self)@ == old(self)@.insert(name@, id@),
    {
        self.rules.insert(name, id);
        assert(self@ =~= old(self)@.insert(name@, id@));
    }

    /// The identifier of the rule called `name`, if the table has that rule.
    pub fn lookup(&self, name: &str) -> (id: Option<&str>)
        ensures
            match id {
                Some(text) => self@.contains_key(name@) && text@ == self@[name@],
                None => !self@.contains_key(name@),
            },
    {
        match self.rules.get(name) {
            Some(id) => Some(id.as_str()),
            None => None,
        }
    }
}

/// Whether `table` gives the rule called `name` an identifier that can be
/// used: the name is in the table and its identifier is not empty.
pub open spec fn resolvable(table: Map<Seq<char>, Seq<char>>, name: Seq<char>) -> bool {
    table.contains_key(name) && table[name].len() > 0
}

/// The identifiers of the two rules, or the name of the first rule, show
/// before hide, that the table cannot resolve.
pub open spec fn resolve_model(
    table: Map<Seq<char>, Seq<char>>,
    show_rule_name: Seq<char>,
    hide_rule_name: Seq<char>,
) -> Result<(Seq<char>, Seq<char>), Seq<char>> {
    if !resolvable(table, show_rule_name) {
        Err(show_rule_name)
    } else if !resolvable(table, hide_rule_name) {
        Err(hide_rule_name)
    } else {
        Ok((table[show_rule_name], table[hide_rule_name]))
    }
}

/// The identifiers that the two rule names resolved to.
#[derive(Debug, PartialEq, Eq)]
pub struct RuleIds {
    pub show: String,
    pub hide: String,
}

/// Looks one rule name up and keeps only an identifier that is not empty.
fn resolve_one(table: &RuleTable, name: &str) -> (id: Option<String>)
    ensures
        match id {
            Some(text) => resolvable(table@, name@) && text@ == table@[name@],
            None => !resolvable(table@, name@),
        },
{
    match table.lookup(name) {
        Some(id) => {
            if id.is_empty() {
                None
            } else {
                Some(String::from_str(id))
            }
        },
        None => None,
    }
}

/// Resolves the two rule names against the rule table.
///
/// Succeeds exactly when the table gives both names an identifier that is not
/// empty; otherwise names the first rule, show before hide, that it does not.
pub fn resolve(table: &RuleTable, show_rule_name: &str, hide_rule_name: &str) -> (outcome: Result<
    RuleIds,
    String,
>)
    ensures
        resolve_model(table@, show_rule_name@, hide_rule_name@) == match outcome {
            Ok(ids) => Ok((ids.show@, ids.hide@)),
            Err(name) => Err(name@),
        },
{
    let show = match resolve_one(table, show_rule_name) {
        Some(id) => id,
        None => {
            return Err(String::from_str(show_rule_name));
        },
    };
    let hide = match resolve_one(table, hide_rule_name) {
        Some(id) => id,
        None => {
            return Err(String::from_str(hide_rule_name));
        },
    };
    Ok(RuleIds { show, hide })
}

} // verus!
