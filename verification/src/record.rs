//! Records: named, typed properties. The engine reads a record only through
//! its property names and the (opaque) value at a chosen key property.

use vstd::prelude::*;
use crate::jsontext::clone_value;
use crate::jsontext::json_of;

verus! {

/// One named property of a record. The value is the store's typed value,
/// carried opaquely as a JSON value.
pub struct Prop {
    pub name: String,
    pub value: serde_json::Value,
}

/// One record: a list of named properties. A property name is looked up by
/// first occurrence.
pub struct Record {
    pub props: Vec<Prop>,
}

/// The value at the first property named `key`, if any.
pub open spec fn find_val(props: Seq<Prop>, key: Seq<char>) -> Option<serde_json::Value>
    decreases props.len(),
{
    if props.len() == 0 {
        None
    } else if props[0].name@ == key {
        Some(props[0].value)
    } else {
        find_val(props.drop_first(), key)
    }
}

/// Whether the record has a property named `key`.
pub open spec fn rec_has_key(r: Record, key: Seq<char>) -> bool {
    find_val(r.props@, key) is Some
}

/// The canonical JSON text of the record's value at `key` (empty when the
/// key is absent; only meaningful under `rec_has_key`).
pub open spec fn rec_key_json(r: Record, key: Seq<char>) -> Seq<char> {
    match find_val(r.props@, key) {
        Some(v) => json_of(v),
        None => Seq::empty(),
    }
}

/// Looks up the first property named `key` and returns its value.
pub fn get_prop<'a>(rec: &'a Record, key: &String) -> (r: Option<&'a serde_json::Value>)
    ensures
        match r {
            Some(v) => find_val(rec.props@, key@) == Some(*v),
            None => find_val(rec.props@, key@) is None,
        },
{
    let ghost all = rec.props@;
    let n = rec.props.len();
    let mut i: usize = 0;
    proof {
        assert(all.skip(0) =~= all);
    }
    while i < n
        invariant
            n == rec.props@.len(),
            all == rec.props@,
            0 <= i <= n,
            find_val(all, key@) == find_val(all.skip(i as int), key@),
        decreases n - i,
    {
        proof {
            assert(all.skip(i as int).len() == n - i);
            assert(all.skip(i as int)[0] == all[i as int]);
        }
        if rec.props[i].name == *key {
            return Some(&rec.props[i].value);
        }
        proof {
            assert(all.skip(i as int).drop_first() =~= all.skip(i as int + 1));
        }
        i += 1;
    }
    proof {
        assert(all.skip(n as int).len() == 0);
    }
    None
}

/// The record's property names, in order.
pub fn prop_names(rec: &Record) -> (r: Vec<String>)
    ensures
        r@.len() == rec.props@.len(),
        forall|j: int| 0 <= j < r@.len() ==> r@[j]@ == rec.props@[j].name@,
{
    let mut out: Vec<String> = Vec::new();
    let n = rec.props.len();
    let mut i: usize = 0;
    while i < n
        invariant
            n == rec.props@.len(),
            out@.len() == i,
            0 <= i <= n,
            forall|j: int| 0 <= j < i ==> out@[j]@ == rec.props@[j].name@,
        decreases n - i,
    {
        out.push(rec.props[i].name.clone());
        i += 1;
    }
    out
}

/// A copy of a record: same property names and the same values.
pub fn clone_record(rec: &Record) -> (r: Record)
    ensures
        r.props@ == rec.props@,
{
    let mut props: Vec<Prop> = Vec::new();
    let n = rec.props.len();
    let mut i: usize = 0;
    while i < n
        invariant
            n == rec.props@.len(),
            props@.len() == i,
            0 <= i <= n,
            forall|j: int| 0 <= j < i ==> props@[j] == rec.props@[j],
        decreases n - i,
    {
        let p = Prop {
            name: rec.props[i].name.clone(),
            value: clone_value(&rec.props[i].value),
        };
        props.push(p);
        i += 1;
    }
    proof {
        assert(props@ =~= rec.props@);
    }
    Record { props }
}

} // verus!
