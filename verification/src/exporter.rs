//! The computations shared by exporters: naming a metric for export, and
//! building the sorted label set of a measurement point.
//!
//! Exported metric and label names follow common exporter naming rules:
//! every character outside ASCII letters, digits and `'_'` becomes `'_'`.
//! The exported name of a metric is its name, optionally suffixed with its
//! unit's name, sanitized, and framed by a configured prefix and suffix.
//! Each point exports four resource labels and, optionally, one label per
//! attribute, sorted by label name. What only the export edge can do (the
//! wire protocols, floating-point rendering) stays outside.

use vstd::prelude::*;
use vstd::multiset::Multiset;
use vstd::seq_lib::group_to_multiset_ensures;
use vstd::seq_lib::to_multiset_insert;
use vstd::seq_lib::to_multiset_remove;
use vstd::string::StrSliceExecFns;
use vstd::string::StringExecFns;

use crate::attributes::AttributeValue;
use crate::measurement::MeasurementPoint;
use crate::metrics::MetricDefinition;
use crate::resources::spec_consumer_id_string;
use crate::resources::spec_consumer_kind;
use crate::resources::spec_resource_id_string;
use crate::resources::spec_resource_kind;
use crate::text::lemma_str_le_total;
use crate::text::lemma_str_le_trans;
use crate::text::push_char;
use crate::text::str_le;
use crate::text::str_le_exec;
use crate::units::spec_display_name;
use crate::units::spec_unique_name;

verus! {

/// Whether a character may stand in an exported name: ASCII letters,
/// digits, and the underscore.
pub open spec fn is_name_char(c: char) -> bool {
    ('a' <= c && c <= 'z') || ('A' <= c && c <= 'Z') || ('0' <= c && c <= '9') || c == '_'
}

/// A name with every character outside the exporter naming rules replaced
/// by an underscore.
pub open spec fn spec_sanitize(s: Seq<char>) -> Seq<char> {
    Seq::new(
        s.len(),
        |i: int|
            if is_name_char(s[i]) {
                s[i]
            } else {
                '_'
            },
    )
}

/// Whether a character may stand in an exported name.
fn is_name_char_exec(c: char) -> (r: bool)
    ensures
        r == is_name_char(c),
{
    ('a' <= c && c <= 'z') || ('A' <= c && c <= 'Z') || ('0' <= c && c <= '9') || c == '_'
}

/// Replaces every character outside the exporter naming rules by an
/// underscore, so that metric and label names are valid for exporters.
pub fn sanitize_name(name: String) -> (r: String)
    ensures
        r@ == spec_sanitize(name@),
{
    let s = name.as_str();
    let n = s.unicode_len();
    let mut out = String::new();
    let mut i: usize = 0;
    while i < n
        invariant
            n == s@.len(),
            s@ == name@,
            i <= n,
            out@ =~= spec_sanitize(name@).take(i as int),
        decreases n - i,
    {
        let c = s.get_char(i);
        if is_name_char_exec(c) {
            push_char(&mut out, c);
        } else {
            push_char(&mut out, '_');
        }
        i = i + 1;
    }
    proof {
        assert(out@ =~= spec_sanitize(name@));
    }
    out
}

/// The base name a metric is exported under: the metric's name, and its
/// unit's name appended after an underscore where that is asked for and
/// the unit's name is nonempty.
pub open spec fn spec_base_name(
    def: MetricDefinition,
    append_unit: bool,
    use_display: bool,
) -> Seq<char> {
    if append_unit {
        let unit_name = if use_display {
            spec_display_name(def.unit)
        } else {
            spec_unique_name(def.unit)
        };
        if unit_name.len() == 0 {
            def.name@
        } else {
            def.name@ + "_"@ + unit_name
        }
    } else {
        def.name@
    }
}

/// The base name a metric is exported under; see [`spec_base_name`].
pub fn metric_base_name(def: &MetricDefinition, append_unit: bool, use_display: bool) -> (r:
    String)
    ensures
        r@ == spec_base_name(*def, append_unit, use_display),
{
    if append_unit {
        let unit_name = if use_display {
            def.unit.display_name()
        } else {
            def.unit.unique_name()
        };
        if unit_name.as_str().unicode_len() == 0 {
            proof {
                assert(unit_name@.len() == 0);
            }
            def.name.clone()
        } else {
            let base = def.name.clone().concat("_");
            base.concat(unit_name.as_str())
        }
    } else {
        def.name.clone()
    }
}

/// The full name a metric is exported under: the configured prefix, then
/// the sanitized base name, then the configured suffix.
pub fn exported_metric_name(
    def: &MetricDefinition,
    append_unit: bool,
    use_display: bool,
    prefix: &str,
    suffix: &str,
) -> (r: String)
    ensures
        r@ == prefix@ + spec_sanitize(spec_base_name(*def, append_unit, use_display)) + suffix@,
{
    let base = sanitize_name(metric_base_name(def, append_unit, use_display));
    let mut out = prefix.to_owned();
    out.append(base.as_str());
    out.append(suffix);
    out
}

/// The display name a transform attaches to a point's metric: the
/// configured prefix, then the base name as it is, then the suffix.
pub fn metric_display_name(
    def: &MetricDefinition,
    append_unit: bool,
    use_display: bool,
    prefix: &str,
    suffix: &str,
) -> (r: String)
    ensures
        r@ == prefix@ + spec_base_name(*def, append_unit, use_display) + suffix@,
{
    let base = metric_base_name(def, append_unit, use_display);
    let mut out = prefix.to_owned();
    out.append(base.as_str());
    out.append(suffix);
    out
}

/// Whether a label entry holds the given name and a string value with the
/// given contents.
pub open spec fn is_string_label(
    e: (String, AttributeValue),
    key: Seq<char>,
    val: Seq<char>,
) -> bool {
    e.0@ == key && (e.1 matches AttributeValue::String(s) && s@ == val)
}

/// The value of an identity label: the decimal id, or empty where there is
/// none.
pub open spec fn id_label_value(id: Option<Seq<char>>) -> Seq<char> {
    match id {
        Some(s) => s,
        None => ""@,
    }
}

/// Builds the labels of one measurement point, unsorted: the four resource
/// labels first, then, where asked for, one label per attribute with a
/// sanitized name. Label values stay typed; the export edge renders them.
pub fn assemble_labels(p: &MeasurementPoint, add_attributes: bool) -> (r: Vec<
    (String, AttributeValue),
>)
    ensures
        r@.len() == 4 + (if add_attributes {
            p.attributes.entry_seq().len()
        } else {
            0
        }),
        is_string_label(r@[0], "resource_kind"@, spec_resource_kind(p.resource)),
        is_string_label(
            r@[1],
            "resource_id"@,
            id_label_value(spec_resource_id_string(p.resource)),
        ),
        is_string_label(r@[2], "resource_consumer_kind"@, spec_consumer_kind(p.consumer)),
        is_string_label(
            r@[3],
            "resource_consumer_id"@,
            id_label_value(spec_consumer_id_string(p.consumer)),
        ),
        forall|i: int|
            4 <= i < r@.len() ==> r@[i].0@ == spec_sanitize(
                p.attributes.entry_seq()[i - 4].0@,
            ) && r@[i].1 == p.attributes.entry_seq()[i - 4].1,
{
    let mut labels: Vec<(String, AttributeValue)> = Vec::new();
    let resource_id = match p.resource.id_string() {
        Some(s) => s,
        None => String::new(),
    };
    let consumer_id = match p.consumer.id_string() {
        Some(s) => s,
        None => String::new(),
    };
    labels.push(
        ("resource_kind".to_owned(), AttributeValue::String(p.resource.kind().to_owned())),
    );
    labels.push(("resource_id".to_owned(), AttributeValue::String(resource_id)));
    labels.push(
        (
            "resource_consumer_kind".to_owned(),
            AttributeValue::String(p.consumer.kind().to_owned()),
        ),
    );
    labels.push(("resource_consumer_id".to_owned(), AttributeValue::String(consumer_id)));
    proof {
        reveal_strlit("");
        assert(""@ =~= Seq::<char>::empty());
    }
    if add_attributes {
        let entries = p.attributes.entries();
        let n = entries.len();
        let mut i: usize = 0;
        while i < n
            invariant
                n == entries@.len(),
                entries@ == p.attributes.entry_seq(),
                i <= n,
                labels@.len() == 4 + i,
                is_string_label(labels@[0], "resource_kind"@, spec_resource_kind(p.resource)),
                is_string_label(
                    labels@[1],
                    "resource_id"@,
                    id_label_value(spec_resource_id_string(p.resource)),
                ),
                is_string_label(
                    labels@[2],
                    "resource_consumer_kind"@,
                    spec_consumer_kind(p.consumer),
                ),
                is_string_label(
                    labels@[3],
                    "resource_consumer_id"@,
                    id_label_value(spec_consumer_id_string(p.consumer)),
                ),
                forall|j: int|
                    4 <= j < labels@.len() ==> labels@[j].0@ == spec_sanitize(
                        p.attributes.entry_seq()[j - 4].0@,
                    ) && labels@[j].1 == p.attributes.entry_seq()[j - 4].1,
            decreases n - i,
        {
            let key = sanitize_name(entries[i].0.clone());
            let value = entries[i].1.duplicate();
            labels.push((key, value));
            i = i + 1;
        }
    }
    labels
}

/// Whether a label list is sorted by label name, in the lexicographic
/// order.
pub open spec fn sorted_by_key(s: Seq<(String, AttributeValue)>) -> bool {
    forall|i: int, j: int| 0 <= i < j < s.len() ==> str_le(#[trigger] s[i].0@, #[trigger] s[j].0@)
}

/// Sorts labels by label name: the result holds exactly the given labels,
/// ordered by name.
pub fn sort_labels(labels: Vec<(String, AttributeValue)>) -> (r: Vec<(String, AttributeValue)>)
    ensures
        r@.to_multiset() == labels@.to_multiset(),
        r@.len() == labels@.len(),
        sorted_by_key(r@),
{
    broadcast use group_to_multiset_ensures;
    broadcast use vstd::multiset::group_multiset_axioms;

    let mut rest = labels;
    let mut out: Vec<(String, AttributeValue)> = Vec::new();
    proof {
        assert(out@.to_multiset().add(rest@.to_multiset()) =~= labels@.to_multiset());
    }
    while rest.len() > 0
        invariant
            out@.to_multiset().add(rest@.to_multiset()) == labels@.to_multiset(),
            out@.len() + rest@.len() == labels@.len(),
            sorted_by_key(out@),
        decreases rest@.len(),
    {
        let ghost out0 = out@;
        let ghost rest0 = rest@;
        let item = rest.remove(0);
        proof {
            to_multiset_remove(rest0, 0);
            rest0.to_multiset_ensures();
            assert(rest0.contains(item)) by {
                assert(rest0[0] == item);
            }
            assert(rest0.to_multiset().count(item) > 0);
        }
        let mut j: usize = out.len();
        loop
            invariant_except_break
                j <= out@.len(),
                out@ == out0,
                sorted_by_key(out0),
                forall|i: int| j <= i < out0.len() ==> str_le(item.0@, #[trigger] out0[i].0@),
            ensures
                j <= out0.len(),
                out@ == out0,
                forall|i: int| j <= i < out0.len() ==> str_le(item.0@, #[trigger] out0[i].0@),
                j == 0 || str_le(out0[j - 1].0@, item.0@),
            decreases j,
        {
            if j == 0 {
                break ;
            }
            if str_le_exec(out[j - 1].0.as_str(), item.0.as_str()) {
                break ;
            }
            proof {
                lemma_str_le_total(out0[j - 1].0@, item.0@);
            }
            j = j - 1;
        }
        proof {
            out0.insert_ensures(j as int, item);
            to_multiset_insert(out0, j as int, item);
            let n = out0.insert(j as int, item);
            assert forall|i1: int, i2: int| 0 <= i1 < i2 < n.len() implies str_le(
                #[trigger] n[i1].0@,
                #[trigger] n[i2].0@,
            ) by {
                if i1 < j && i2 < j {
                    assert(n[i1] == out0[i1] && n[i2] == out0[i2]);
                } else if i1 < j && i2 == j {
                    assert(n[i1] == out0[i1]);
                    if i1 < j - 1 {
                        lemma_str_le_trans(out0[i1].0@, out0[j - 1].0@, item.0@);
                    }
                } else if i1 < j && i2 > j {
                    assert(n[i1] == out0[i1] && n[i2] == out0[i2 - 1]);
                    assert(i1 < i2 - 1);
                } else if i1 == j && i2 > j {
                    assert(n[i2] == out0[i2 - 1]);
                } else {
                    assert(n[i1] == out0[i1 - 1] && n[i2] == out0[i2 - 1]);
                }
            }
            assert(out0.to_multiset().insert(item).add(rest0.to_multiset().remove(item))
                =~= out0.to_multiset().add(rest0.to_multiset()));
        }
        out.insert(j, item);
    }
    proof {
        assert(rest@.to_multiset() =~= Multiset::<(String, AttributeValue)>::empty());
        assert(out@.to_multiset().add(Multiset::empty()) =~= out@.to_multiset());
    }
    out
}

} // verus!
