//! Lookup of command options. Each option is read from the last entry of its
//! name that carries a value; a null entry leaves the value found so far in
//! place, and entries of other names are ignored.

use vstd::prelude::*;
use crate::text::{decimal, push_decimal};

verus! {

/// The value of one option as the platform supplied it.
#[derive(Debug, Clone)]
pub enum OptionValue {
    Null,
    Text(String),
    Flag(bool),
    Integer(i64),
}

#[derive(Debug, Clone)]
pub struct CommandOption {
    pub name: String,
    pub value: OptionValue,
}

/// Position of the last entry named `name` whose value is not null.
pub open spec fn last_index(opts: Seq<CommandOption>, name: Seq<char>) -> Option<int>
    decreases opts.len(),
{
    if opts.len() == 0 {
        None
    } else {
        let o = opts.last();
        if o.name@ == name && !(o.value is Null) {
            Some(opts.len() - 1)
        } else {
            last_index(opts.drop_last(), name)
        }
    }
}

/// The value of the last entry named `name` whose value is not null.
pub open spec fn last_value(opts: Seq<CommandOption>, name: Seq<char>) -> Option<OptionValue> {
    match last_index(opts, name) {
        Some(i) => Some(opts[i].value),
        None => None,
    }
}

/// The text a value reads as: text itself, `true`/`false`, or the decimal
/// integer.
pub open spec fn value_text(v: OptionValue) -> Seq<char> {
    match v {
        OptionValue::Null => Seq::empty(),
        OptionValue::Text(s) => s@,
        OptionValue::Flag(b) => if b { "true"@ } else { "false"@ },
        OptionValue::Integer(n) => decimal(n as int),
    }
}

/// The text of the last value named `name`, if any.
pub open spec fn last_text(opts: Seq<CommandOption>, name: Seq<char>) -> Option<Seq<char>> {
    match last_value(opts, name) {
        Some(v) => Some(value_text(v)),
        None => None,
    }
}

proof fn lemma_last_index_bounds(opts: Seq<CommandOption>, name: Seq<char>)
    ensures
        last_index(opts, name) is Some ==> {
            let i = last_index(opts, name)->Some_0;
            &&& 0 <= i < opts.len()
            &&& opts[i].name@ == name
            &&& !(opts[i].value is Null)
        },
    decreases opts.len(),
{
    if opts.len() > 0 {
        lemma_last_index_bounds(opts.drop_last(), name);
    }
}

/// A later entry with a value overrides what came before; a later null
/// entry, or one of another name, leaves the earlier value in place.
pub proof fn lemma_later_value_wins(opts: Seq<CommandOption>, o: CommandOption, name: Seq<char>)
    ensures
        (o.name@ == name && !(o.value is Null)) ==> last_value(opts.push(o), name) == Some(o.value),
        !(o.name@ == name && !(o.value is Null)) ==> last_value(opts.push(o), name) == last_value(opts, name),
{
    assert(opts.push(o).drop_last() =~= opts);
    lemma_last_index_bounds(opts, name);
    if last_index(opts, name) is Some {
        let i = last_index(opts, name)->Some_0;
        assert(opts.push(o)[i] == opts[i]);
    }
}

/// Position of the last entry named `name` whose value is not null.
pub fn find_last(options: &Vec<CommandOption>, name: &str) -> (r: Option<usize>)
    ensures
        r is Some == last_index(options@, name@) is Some,
        r is Some ==> r->Some_0 as int == last_index(options@, name@)->Some_0,
        r is Some ==> r->Some_0 < options@.len(),
{
    proof {
        lemma_last_index_bounds(options@, name@);
    }
    let key = String::from_str(name);
    let mut i: usize = options.len();
    assert(options@.subrange(0, i as int) =~= options@);
    while i > 0
        invariant
            i <= options@.len(),
            key@ == name@,
            last_index(options@, name@) == last_index(options@.subrange(0, i as int), name@),
        decreases i,
    {
        assert(options@.subrange(0, i - 1) =~= options@.subrange(0, i as int).drop_last());
        let o = &options[i - 1];
        if o.name == key {
            match &o.value {
                OptionValue::Null => {},
                _ => return Some(i - 1),
            }
        }
        i = i - 1;
    }
    None
}

impl OptionValue {
    /// The text this value reads as.
    pub fn text(&self) -> (r: String)
        ensures
            r@ == value_text(*self),
    {
        match self {
            OptionValue::Null => String::new(),
            OptionValue::Text(s) => s.clone(),
            OptionValue::Flag(b) => if *b { String::from_str("true") } else { String::from_str("false") },
            OptionValue::Integer(n) => {
                let mut s = String::new();
                push_decimal(&mut s, *n);
                assert(s@ =~= decimal(*n as int));
                s
            },
        }
    }
}

/// The text of the last value named `name`, if any.
pub fn find_text(options: &Vec<CommandOption>, name: &str) -> (r: Option<String>)
    ensures
        r is Some == last_text(options@, name@) is Some,
        r is Some ==> r->Some_0@ == last_text(options@, name@)->Some_0,
{
    match find_last(options, name) {
        Some(i) => Some(options[i].value.text()),
        None => None,
    }
}

} // verus!
