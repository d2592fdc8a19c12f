//! Proxy groups as the daemon reports them, and the view the panel
//! builds from them.
//!
//! The response is a map from group name to group data. A malformed
//! body never yields a partial map: either every entry parses, or the
//! whole response is rejected.

use vstd::prelude::*;

use crate::json::JsonValue;
use crate::json::obj_get;
use crate::json::num_field;
use crate::json::spec_num_field;
use crate::json::spec_get;
use crate::config::spec_opt_str_field;
use crate::config::opt_str_field;
use crate::text::spec_str_le;
use crate::text::str_le;
use crate::text::lemma_str_le_total;
use crate::text::lemma_str_le_trans;

verus! {

/// One proxy or proxy group, as the daemon describes it. Only
/// selector-kind groups are user-selectable; `now` is the currently
/// active member.
#[derive(Clone, Debug, PartialEq)]
pub struct ProxyItem {
    pub name: Option<String>,
    pub proxy_type: Option<String>,
    pub now: Option<String>,
    pub all: Option<Vec<String>>,
}

/// The string a value holds, where it holds one.
pub open spec fn spec_str_of(v: JsonValue) -> String
    recommends
        v is Str,
{
    match v {
        JsonValue::Str(s) => s,
        _ => arbitrary(),
    }
}

/// Whether `v` is a list of strings.
pub open spec fn spec_is_str_list(v: JsonValue) -> bool {
    match v {
        JsonValue::Arr(items) => forall|i: int| 0 <= i < items@.len() ==> items@[i] is Str,
        _ => false,
    }
}

/// The strings of a string list.
pub open spec fn spec_str_list(v: JsonValue) -> Seq<String>
    recommends
        spec_is_str_list(v),
{
    match v {
        JsonValue::Arr(items) => items@.map_values(|x: JsonValue| spec_str_of(x)),
        _ => arbitrary(),
    }
}

/// Whether the optional member list under `all` is well-formed:
/// absent, null, or a list of strings.
pub open spec fn spec_all_ok(fields: Seq<(String, JsonValue)>) -> bool {
    match spec_get(fields, "all"@) {
        None => true,
        Some(JsonValue::Null) => true,
        Some(v) => spec_is_str_list(v),
    }
}

/// Whether `all` relates `fields` to a parsed member list.
pub open spec fn spec_all_matches(fields: Seq<(String, JsonValue)>, all: Option<Vec<String>>) -> bool {
    match spec_get(fields, "all"@) {
        None => all is None,
        Some(JsonValue::Null) => all is None,
        Some(v) => spec_is_str_list(v) && match all {
            Some(list) => list@ == spec_str_list(v),
            None => false,
        },
    }
}

/// Whether `v` is a well-formed proxy entry: an object whose `name`,
/// `type` and `now` are absent, null or strings, and whose `all` is
/// absent, null or a list of strings.
pub open spec fn spec_item_ok(v: JsonValue) -> bool {
    match v {
        JsonValue::Obj(f) => {
            &&& spec_opt_str_field(f@, "name"@) is Some
            &&& spec_opt_str_field(f@, "type"@) is Some
            &&& spec_opt_str_field(f@, "now"@) is Some
            &&& spec_all_ok(f@)
        },
        _ => false,
    }
}

/// Whether `item` is exactly what `v` describes.
pub open spec fn spec_item_matches(v: JsonValue, item: ProxyItem) -> bool {
    match v {
        JsonValue::Obj(f) => {
            &&& spec_opt_str_field(f@, "name"@) == Some(item.name)
            &&& spec_opt_str_field(f@, "type"@) == Some(item.proxy_type)
            &&& spec_opt_str_field(f@, "now"@) == Some(item.now)
            &&& spec_all_matches(f@, item.all)
        },
        _ => false,
    }
}

/// Parse a string list.
fn parse_str_list(v: &JsonValue) -> (r: Option<Vec<String>>)
    ensures
        match r {
            Some(list) => spec_is_str_list(*v) && list@ == spec_str_list(*v),
            None => !spec_is_str_list(*v),
        },
{
    match v {
        JsonValue::Arr(items) => {
            let mut out: Vec<String> = Vec::new();
            let n = items.len();
            for i in 0..n
                invariant
                    *v == JsonValue::Arr(*items),
                    n == items@.len(),
                    out@.len() == i,
                    forall|j: int| 0 <= j < i ==> items@[j] is Str,
                    forall|j: int| 0 <= j < i ==> out@[j] == spec_str_of(items@[j]),
            {
                match &items[i] {
                    JsonValue::Str(s) => out.push(s.clone()),
                    _ => {
                        assert(!(items@[i as int] is Str));
                        return None;
                    },
                }
            }
            proof {
                assert(out@ =~= items@.map_values(|x: JsonValue| spec_str_of(x)));
            }
            Some(out)
        },
        _ => None,
    }
}

/// Parse one proxy entry.
pub fn parse_item(v: &JsonValue) -> (r: Option<ProxyItem>)
    ensures
        match r {
            Some(item) => spec_item_ok(*v) && spec_item_matches(*v, item),
            None => !spec_item_ok(*v),
        },
{
    match v {
        JsonValue::Obj(f) => {
            let name = opt_str_field(f, "name");
            let proxy_type = opt_str_field(f, "type");
            let now = opt_str_field(f, "now");
            let all: Option<Option<Vec<String>>> = match obj_get(f, "all") {
                None => Some(None),
                Some(JsonValue::Null) => Some(None),
                Some(other) => match parse_str_list(other) {
                    Some(list) => Some(Some(list)),
                    None => None,
                },
            };
            match (name, proxy_type, now, all) {
                (Some(name), Some(proxy_type), Some(now), Some(all)) => Some(
                    ProxyItem { name, proxy_type, now, all },
                ),
                _ => None,
            }
        },
        _ => None,
    }
}

/// A parsed proxies response: every entry under its response key, in
/// response order.
pub struct ProxiesResponse {
    pub proxies: Vec<(String, ProxyItem)>,
}

/// Whether `body` is a well-formed proxies response: an object with a
/// `proxies` object whose every entry is a well-formed proxy entry.
pub open spec fn spec_proxies_ok(body: JsonValue) -> bool {
    match body {
        JsonValue::Obj(f) => match spec_get(f@, "proxies"@) {
            Some(JsonValue::Obj(entries)) => forall|i: int|
                0 <= i < entries@.len() ==> spec_item_ok(#[trigger] entries@[i].1),
            _ => false,
        },
        _ => false,
    }
}

/// The raw entries of a proxies response.
pub open spec fn spec_proxies_entries(body: JsonValue) -> Seq<(String, JsonValue)>
    recommends
        spec_proxies_ok(body),
{
    match body {
        JsonValue::Obj(f) => match spec_get(f@, "proxies"@) {
            Some(JsonValue::Obj(entries)) => entries@,
            _ => arbitrary(),
        },
        _ => arbitrary(),
    }
}

/// Parse a whole proxies response, never yielding a partial map: the
/// result keeps every entry under its response key, in response order,
/// or the body is rejected as a whole.
pub fn parse_proxies(body: &JsonValue) -> (r: Option<ProxiesResponse>)
    ensures
        match r {
            Some(resp) => {
                &&& spec_proxies_ok(*body)
                &&& resp.proxies@.len() == spec_proxies_entries(*body).len()
                &&& forall|i: int|
                    0 <= i < resp.proxies@.len() ==> (#[trigger] resp.proxies@[i]).0
                        == spec_proxies_entries(*body)[i].0 && spec_item_matches(
                        spec_proxies_entries(*body)[i].1,
                        resp.proxies@[i].1,
                    )
            },
            None => !spec_proxies_ok(*body),
        },
{
    match body {
        JsonValue::Obj(f) => {
            match obj_get(f, "proxies") {
                Some(JsonValue::Obj(entries)) => {
                    let mut out: Vec<(String, ProxyItem)> = Vec::new();
                    let n = entries.len();
                    for i in 0..n
                        invariant
                            *body == JsonValue::Obj(*f),
                            spec_get(f@, "proxies"@) == Some(JsonValue::Obj(*entries)),
                            n == entries@.len(),
                            out@.len() == i,
                            forall|j: int| 0 <= j < i ==> spec_item_ok(#[trigger] entries@[j].1),
                            forall|j: int|
                                0 <= j < i ==> (#[trigger] out@[j]).0 == entries@[j].0
                                    && spec_item_matches(entries@[j].1, out@[j].1),
                    {
                        let e = &entries[i];
                        match parse_item(&e.1) {
                            Some(item) => out.push((e.0.clone(), item)),
                            None => {
                                assert(!spec_item_ok(entries@[i as int].1));
                                assert(spec_proxies_entries(*body) == entries@);
                                assert(!spec_proxies_ok(*body));
                                return None;
                            },
                        }
                    }
                    Some(ProxiesResponse { proxies: out })
                },
                _ => None,
            }
        },
        _ => None,
    }
}

/// The names of the selector-kind groups among parsed entries, in
/// entry order: an entry contributes its own `name` field when its
/// type is exactly `Selector` and it has a name.
pub open spec fn spec_selector_names(s: Seq<(String, ProxyItem)>) -> Seq<String>
    decreases s.len(),
{
    if s.len() == 0 {
        Seq::empty()
    } else {
        let rest = spec_selector_names(s.drop_first());
        match (s[0].1.name, s[0].1.proxy_type) {
            (Some(n), Some(t)) => if t@ == "Selector"@ {
                seq![n] + rest
            } else {
                rest
            },
            _ => rest,
        }
    }
}

/// Collect the selector-group names for display.
pub fn selector_names(items: &Vec<(String, ProxyItem)>) -> (r: Vec<String>)
    ensures
        r@ == spec_selector_names(items@),
{
    let mut out: Vec<String> = Vec::new();
    let n = items.len();
    assert(items@.skip(0) =~= items@);
    for i in 0..n
        invariant
            n == items@.len(),
            out@ + spec_selector_names(items@.skip(i as int)) == spec_selector_names(items@),
    {
        proof {
            assert(items@.skip(i as int).drop_first() =~= items@.skip(i + 1));
            assert(items@.skip(i as int)[0] == items@[i as int]);
        }
        let ghost prev = out@;
        let item = &items[i].1;
        let is_selector = match &item.proxy_type {
            Some(t) => crate::json::str_eq(t, "Selector"),
            None => false,
        };
        if is_selector {
            match &item.name {
                Some(nm) => {
                    out.push(nm.clone());
                    proof {
                        assert(out@ + spec_selector_names(items@.skip(i + 1)) =~= prev + (seq![
                            items@[i as int].1.name->0,
                        ] + spec_selector_names(items@.skip(i + 1))));
                    }
                },
                None => {
                },
            }
        }
    }
    proof {
        assert(items@.skip(n as int) =~= Seq::<(String, ProxyItem)>::empty());
        assert(out@ + spec_selector_names(items@.skip(n as int)) =~= out@);
    }
    out
}

/// The round trip a per-member delay check reports, if `v` is the
/// daemon's delay response: an object with a numeric `delay` field.
pub open spec fn spec_parse_delay(v: JsonValue) -> Option<u64> {
    match v {
        JsonValue::Obj(f) => spec_num_field(f@, "delay"@),
        _ => None,
    }
}

/// Read a per-member delay response.
pub fn parse_delay(v: &JsonValue) -> (r: Option<u64>)
    ensures
        r == spec_parse_delay(*v),
{
    match v {
        JsonValue::Obj(f) => num_field(f, "delay"),
        _ => None,
    }
}

/// Whether `body` is the wire body that selects `member` in a group.
pub open spec fn spec_select_body(member: String, body: JsonValue) -> bool {
    match body {
        JsonValue::Obj(f) => {
            let fs = f@;
            fs.len() == 1 && fs[0].0@ == "name"@ && fs[0].1 == JsonValue::Str(member)
        },
        _ => false,
    }
}

/// Build the wire body that selects `member` in a group.
pub fn select_proxy_body(member: &String) -> (body: JsonValue)
    ensures
        spec_select_body(*member, body),
{
    let mut fields: Vec<(String, JsonValue)> = Vec::new();
    fields.push((String::from_str("name"), JsonValue::Str(member.clone())));
    JsonValue::Obj(fields)
}

/// Whether a name list is in lexicographic order.
pub open spec fn spec_sorted_names(s: Seq<String>) -> bool {
    forall|i: int, j: int| 0 <= i < j < s.len() ==> spec_str_le(s[i]@, s[j]@)
}

proof fn lemma_swap_multiset(s: Seq<String>, a: int, b: int)
    requires
        0 <= a < s.len(),
        0 <= b < s.len(),
        a != b,
    ensures
        s.update(a, s[b]).update(b, s[a]).to_multiset() == s.to_multiset(),
{
    broadcast use vstd::seq_lib::group_to_multiset_ensures;

    assert(s.contains(s[a]));
    assert(s.contains(s[b]));
    let s1 = s.update(a, s[b]);
    assert(s1[b] == s[b]);
    assert(s1.to_multiset() == s.to_multiset().insert(s[b]).remove(s[a]));
    assert(s1.update(b, s[a]).to_multiset() == s1.to_multiset().insert(s[a]).remove(s[b]));
    assert(s1.update(b, s[a]).to_multiset() =~= s.to_multiset());
}

/// Sort a name list for display, keeping exactly the same names.
pub fn sort_names(names: &mut Vec<String>)
    ensures
        final(names)@.to_multiset() == old(names)@.to_multiset(),
        spec_sorted_names(final(names)@),
{
    let ghost orig = names@;
    let n = names.len();
    if n == 0 {
        return ;
    }
    for i in 1..n
        invariant
            1 <= i <= n,
            n == names@.len(),
            names@.to_multiset() == orig.to_multiset(),
            forall|k1: int, k2: int|
                0 <= k1 < k2 < i ==> spec_str_le(#[trigger] names@[k1]@, #[trigger] names@[k2]@),
    {
        let mut j: usize = i;
        while j > 0 && !str_le(&names[j - 1], &names[j])
            invariant
                j <= i < n,
                n == names@.len(),
                names@.to_multiset() == orig.to_multiset(),
                forall|k1: int, k2: int|
                    0 <= k1 < k2 <= i && k2 != j ==> spec_str_le(
                        #[trigger] names@[k1]@,
                        #[trigger] names@[k2]@,
                    ),
            decreases j,
        {
            let ghost before = names@;
            let moved = names[j - 1].clone();
            let other = names[j].clone();
            proof {
                lemma_str_le_total(before[j - 1]@, before[j as int]@);
            }
            names.set(j - 1, other);
            names.set(j, moved);
            proof {
                lemma_swap_multiset(before, j - 1, j as int);
                assert(names@ =~= before.update(j - 1, before[j as int]).update(
                    j as int,
                    before[j - 1],
                ));
                assert forall|k1: int, k2: int|
                    0 <= k1 < k2 <= i && k2 != j - 1 implies spec_str_le(
                    #[trigger] names@[k1]@,
                    #[trigger] names@[k2]@,
                ) by {
                    if k2 == j {
                        if k1 < j - 1 {
                            assert(names@[k2] == before[j - 1]);
                            assert(names@[k1] == before[k1]);
                            assert(spec_str_le(before[k1]@, before[j - 1]@));
                        }
                    }
                }
            }
            j = j - 1;
        }
        proof {
            assert forall|k1: int, k2: int| 0 <= k1 < k2 <= i implies spec_str_le(
                #[trigger] names@[k1]@,
                #[trigger] names@[k2]@,
            ) by {
                if k2 == j && k1 < j - 1 {
                    lemma_str_le_trans(names@[k1]@, names@[j - 1]@, names@[j as int]@);
                }
            }
        }
    }
}

} // verus!
