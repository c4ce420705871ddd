//! How an edit combines a new value with the stored one. An index that lies
//! outside the stored value is moved to its nearest valid position.

use crate::models::{
    items_view, ActionError, ActionErrorView, EditType, StringItem, StringItemView, VariableValue,
    VariableValueView,
};
use crate::text::{append, from_chars, has_at, min_int, occurs_at, slice, to_chars};
use vstd::prelude::*;

verus! {

/// `s` with `x` put in at position `index`, or at the end where `index`
/// lies behind it.
pub open spec fn inserted_at<T>(s: Seq<T>, index: usize, x: Seq<T>) -> Seq<T> {
    let k = min_int(index as int, s.len() as int);
    s.subrange(0, k) + x + s.skip(k)
}

/// `s` without the element at position `index`, or without its last one
/// where `index` lies behind it; an empty `s` stays empty.
pub open spec fn removed_at<T>(s: Seq<T>, index: usize) -> Seq<T> {
    if s.len() == 0 {
        s
    } else {
        s.remove(min_int(index as int, s.len() - 1))
    }
}

/// `s` without the occurrences of `pat`, found from the left, none
/// overlapping another. An empty `pat` occurs nowhere.
pub open spec fn remove_all(s: Seq<char>, pat: Seq<char>) -> Seq<char>
    decreases s.len(),
{
    if pat.len() == 0 || s.len() == 0 {
        s
    } else if has_at(s, 0, pat) {
        remove_all(s.skip(pat.len() as int), pat)
    } else {
        seq![s[0]] + remove_all(s.skip(1), pat)
    }
}

/// One of `items` has the value `value`.
pub open spec fn has_value(items: Seq<StringItemView>, value: Seq<char>) -> bool {
    exists|j: int| 0 <= j < items.len() && (#[trigger] items[j]).value == value
}

/// `items` without those whose value one of `unwanted` has.
pub open spec fn without_values(items: Seq<StringItemView>, unwanted: Seq<StringItemView>) -> Seq<
    StringItemView,
> {
    items.filter(|i: StringItemView| !has_value(unwanted, i.value))
}

/// Filtering a list goes by its last item and the rest.
proof fn lemma_without_values_step(items: Seq<StringItemView>, unwanted: Seq<StringItemView>)
    requires
        items.len() > 0,
    ensures
        without_values(items, unwanted) == if has_value(unwanted, items.last().value) {
            without_values(items.drop_last(), unwanted)
        } else {
            without_values(items.drop_last(), unwanted).push(items.last())
        },
{
    reveal(Seq::filter);
}

/// Both values are texts, or both are lists.
pub open spec fn same_kind(a: VariableValueView, b: VariableValueView) -> bool {
    (a is Text) == (b is Text)
}

/// The value that the edit `edit_type` makes of the stored value `stored`
/// and the new value `value`. Removing at an index looks at the stored value
/// alone; every other edit asks that both are of one kind.
pub open spec fn edited(
    stored: VariableValueView,
    value: VariableValueView,
    edit_type: EditType,
) -> Result<VariableValueView, ActionErrorView> {
    match (edit_type, stored, value) {
        (EditType::RemoveAt(n), VariableValueView::Text(a), _) => Ok(
            VariableValueView::Text(removed_at(a, n)),
        ),
        (EditType::RemoveAt(n), VariableValueView::StringList(a), _) => Ok(
            VariableValueView::StringList(removed_at(a, n)),
        ),
        (EditType::Overwrite(), VariableValueView::Text(_), VariableValueView::Text(b)) => Ok(
            VariableValueView::Text(b),
        ),
        (
            EditType::Overwrite(),
            VariableValueView::StringList(_),
            VariableValueView::StringList(b),
        ) => Ok(VariableValueView::StringList(b)),
        (EditType::Append(), VariableValueView::Text(a), VariableValueView::Text(b)) => Ok(
            VariableValueView::Text(a + b),
        ),
        (
            EditType::Append(),
            VariableValueView::StringList(a),
            VariableValueView::StringList(b),
        ) => Ok(VariableValueView::StringList(a + b)),
        (EditType::Remove(), VariableValueView::Text(a), VariableValueView::Text(b)) => Ok(
            VariableValueView::Text(remove_all(a, b)),
        ),
        (
            EditType::Remove(),
            VariableValueView::StringList(a),
            VariableValueView::StringList(b),
        ) => Ok(VariableValueView::StringList(without_values(a, b))),
        (EditType::InsertAt(n), VariableValueView::Text(a), VariableValueView::Text(b)) => Ok(
            VariableValueView::Text(inserted_at(a, n, b)),
        ),
        (
            EditType::InsertAt(n),
            VariableValueView::StringList(a),
            VariableValueView::StringList(b),
        ) => Ok(VariableValueView::StringList(inserted_at(a, n, b))),
        _ => Err(ActionErrorView::VariableWrongType),
    }
}

/// An edit is refused exactly where it is no removal at an index and the two
/// values are of different kinds.
pub proof fn lemma_edit_refused(
    stored: VariableValueView,
    value: VariableValueView,
    edit_type: EditType,
)
    ensures
        edited(stored, value, edit_type) is Err <==> !(edit_type is RemoveAt) && !same_kind(
            stored,
            value,
        ),
        edited(stored, value, edit_type) is Err ==> edited(stored, value, edit_type)
            == Err::<VariableValueView, ActionErrorView>(ActionErrorView::VariableWrongType),
{
}

/// Appending to a text concatenates, appending to a list extends, and
/// appending across kinds is refused as a wrong type.
pub proof fn lemma_append(stored: VariableValueView, value: VariableValueView)
    ensures
        stored is Text && value is Text ==> edited(stored, value, EditType::Append()) == Ok::<
            VariableValueView,
            ActionErrorView,
        >(VariableValueView::Text(stored->Text_0 + value->Text_0)),
        stored is StringList && value is StringList ==> edited(stored, value, EditType::Append())
            == Ok::<VariableValueView, ActionErrorView>(
            VariableValueView::StringList(stored->StringList_0 + value->StringList_0),
        ),
        !same_kind(stored, value) ==> edited(stored, value, EditType::Append()) == Err::<
            VariableValueView,
            ActionErrorView,
        >(ActionErrorView::VariableWrongType),
{
}

/// An edit leaves the kind of the stored value as it was.
pub proof fn lemma_edit_keeps_kind(
    stored: VariableValueView,
    value: VariableValueView,
    edit_type: EditType,
)
    requires
        edited(stored, value, edit_type) is Ok,
    ensures
        same_kind(edited(stored, value, edit_type)->Ok_0, stored),
{
}

/// An index behind the end inserts at the end, and removes the last element.
pub proof fn lemma_index_is_clamped<T>(s: Seq<T>, index: usize, x: Seq<T>)
    requires
        index >= s.len(),
    ensures
        inserted_at(s, index, x) == s + x,
        s.len() > 0 ==> removed_at(s, index) == s.drop_last(),
        inserted_at(s, index, x).len() == s.len() + x.len(),
{
    assert(s.subrange(0, s.len() as int) =~= s);
    assert(s.skip(s.len() as int) =~= Seq::<T>::empty());
    assert(inserted_at(s, index, x) =~= s + x);
    if s.len() > 0 {
        assert(s.remove(s.len() - 1) =~= s.drop_last());
    }
}

/// Appends copies of `src[from..to]` to `dst`.
fn extend_items(dst: &mut Vec<StringItem>, src: &Vec<StringItem>, from: usize, to: usize)
    requires
        from <= to <= src.len(),
    ensures
        items_view(final(dst)@) == items_view(old(dst)@) + items_view(src@).subrange(
            from as int,
            to as int,
        ),
{
    let mut i: usize = from;
    while i < to
        invariant
            from <= i <= to <= src.len(),
            items_view(dst@) == items_view(old(dst)@) + items_view(src@).subrange(
                from as int,
                i as int,
            ),
        decreases to - i,
    {
        let ghost before = dst@;
        dst.push(src[i].clone());
        i = i + 1;
        assert(items_view(dst@) =~= items_view(before).push(src@[i - 1]@));
        assert(items_view(dst@) =~= items_view(old(dst)@) + items_view(src@).subrange(
            from as int,
            i as int,
        ));
    }
}

/// Whether one of `items` has the value `value`.
fn holds_value(items: &Vec<StringItem>, value: &String) -> (r: bool)
    ensures
        r == has_value(items_view(items@), value@),
{
    let mut i: usize = 0;
    while i < items.len()
        invariant
            i <= items.len(),
            forall|j: int| 0 <= j < i ==> items_view(items@)[j].value != value@,
        decreases items.len() - i,
    {
        if items[i].value == *value {
            assert(items_view(items@)[i as int].value == value@);
            return true;
        }
        i = i + 1;
    }
    false
}

/// The text `s` without the occurrences of `pat`.
fn remove_text(s: &Vec<char>, pat: &Vec<char>) -> (r: Vec<char>)
    ensures
        r@ == remove_all(s@, pat@),
{
    let mut r: Vec<char> = Vec::new();
    if pat.len() == 0 {
        append(&mut r, s);
        assert(r@ =~= s@);
        return r;
    }
    let mut i: usize = 0;
    assert(s@.skip(0) =~= s@);
    while i < s.len()
        invariant
            i <= s.len(),
            pat.len() > 0,
            r@ + remove_all(s@.skip(i as int), pat@) == remove_all(s@, pat@),
        decreases s.len() - i,
    {
        let ghost rest = s@.skip(i as int);
        if occurs_at(s, i, pat) {
            proof {
                assert(rest.subrange(0, pat.len() as int) =~= s@.subrange(
                    i as int,
                    i + pat.len(),
                ));
                assert(rest.skip(pat.len() as int) =~= s@.skip(i + pat.len()));
            }
            i = i + pat.len();
        } else {
            proof {
                if i + pat.len() <= s.len() {
                    assert(rest.subrange(0, pat.len() as int) =~= s@.subrange(
                        i as int,
                        i + pat.len(),
                    ));
                }
                assert(!has_at(rest, 0, pat@));
                assert(rest.skip(1) =~= s@.skip(i + 1));
                assert(r@.push(s@[i as int]) + remove_all(s@.skip(i + 1), pat@) =~= r@ + (
                seq![rest[0]] + remove_all(rest.skip(1), pat@)));
            }
            r.push(s[i]);
            i = i + 1;
        }
    }
    assert(r@ + remove_all(s@.skip(i as int), pat@) =~= r@);
    r
}

/// The value that an edit makes of the stored value and the new one.
pub fn apply_edit(stored: &VariableValue, value: &VariableValue, edit_type: EditType) -> (r:
    Result<VariableValue, ActionError>)
    ensures
        match edited(stored@, value@, edit_type) {
            Ok(v) => r is Ok && r->Ok_0@ == v,
            Err(e) => r is Err && r->Err_0@ == e,
        },
{
    match (edit_type, stored, value) {
        (EditType::RemoveAt(n), VariableValue::Text(a), _) => {
            let a = to_chars(a.as_str());
            if a.len() == 0 {
                assert(a@ =~= Seq::<char>::empty());
                Ok(VariableValue::Text(String::new()))
            } else {
                let k = if n < a.len() - 1 {
                    n
                } else {
                    a.len() - 1
                };
                let mut out = slice(&a, 0, k);
                let tail = slice(&a, k + 1, a.len());
                append(&mut out, &tail);
                assert(out@ =~= a@.remove(k as int));
                Ok(VariableValue::Text(from_chars(&out)))
            }
        },
        (EditType::RemoveAt(n), VariableValue::StringList(a), _) => {
            let mut out: Vec<StringItem> = Vec::new();
            if a.len() > 0 {
                let k = if n < a.len() - 1 {
                    n
                } else {
                    a.len() - 1
                };
                extend_items(&mut out, a, 0, k);
                extend_items(&mut out, a, k + 1, a.len());
                assert(items_view(out@) =~= items_view(a@).remove(k as int));
            } else {
                assert(items_view(out@) =~= items_view(a@));
            }
            Ok(VariableValue::StringList(out))
        },
        (EditType::Overwrite(), VariableValue::Text(_), VariableValue::Text(b)) => Ok(
            VariableValue::Text(b.clone()),
        ),
        (EditType::Overwrite(), VariableValue::StringList(_), VariableValue::StringList(b)) => {
            Ok(value.clone())
        },
        (EditType::Append(), VariableValue::Text(a), VariableValue::Text(b)) => {
            let mut out = to_chars(a.as_str());
            let b = to_chars(b.as_str());
            append(&mut out, &b);
            Ok(VariableValue::Text(from_chars(&out)))
        },
        (EditType::Append(), VariableValue::StringList(a), VariableValue::StringList(b)) => {
            let mut out: Vec<StringItem> = Vec::new();
            extend_items(&mut out, a, 0, a.len());
            extend_items(&mut out, b, 0, b.len());
            assert(items_view(out@) =~= items_view(a@) + items_view(b@));
            Ok(VariableValue::StringList(out))
        },
        (EditType::Remove(), VariableValue::Text(a), VariableValue::Text(b)) => {
            let a = to_chars(a.as_str());
            let b = to_chars(b.as_str());
            let out = remove_text(&a, &b);
            Ok(VariableValue::Text(from_chars(&out)))
        },
        (EditType::Remove(), VariableValue::StringList(a), VariableValue::StringList(b)) => {
            let mut out: Vec<StringItem> = Vec::new();
            let mut i: usize = 0;
            assert(items_view(a@).subrange(0, 0) =~= Seq::<StringItemView>::empty());
            while i < a.len()
                invariant
                    i <= a.len(),
                    items_view(out@) == without_values(
                        items_view(a@).subrange(0, i as int),
                        items_view(b@),
                    ),
                decreases a.len() - i,
            {
                let ghost before = out@;
                let ghost prefix = items_view(a@).subrange(0, i + 1);
                proof {
                    assert(prefix.drop_last() =~= items_view(a@).subrange(0, i as int));
                    assert(prefix.last() == a@[i as int]@);
                    lemma_without_values_step(prefix, items_view(b@));
                }
                if !holds_value(b, &a[i].value) {
                    out.push(a[i].clone());
                    assert(items_view(out@) =~= items_view(before).push(a@[i as int]@));
                }
                i = i + 1;
            }
            assert(items_view(a@).subrange(0, i as int) =~= items_view(a@));
            Ok(VariableValue::StringList(out))
        },
        (EditType::InsertAt(n), VariableValue::Text(a), VariableValue::Text(b)) => {
            let a = to_chars(a.as_str());
            let b = to_chars(b.as_str());
            let k = if n < a.len() {
                n
            } else {
                a.len()
            };
            let mut out = slice(&a, 0, k);
            append(&mut out, &b);
            let tail = slice(&a, k, a.len());
            append(&mut out, &tail);
            assert(a@.subrange(k as int, a.len() as int) =~= a@.skip(k as int));
            Ok(VariableValue::Text(from_chars(&out)))
        },
        (EditType::InsertAt(n), VariableValue::StringList(a), VariableValue::StringList(b)) => {
            let k = if n < a.len() {
                n
            } else {
                a.len()
            };
            let mut out: Vec<StringItem> = Vec::new();
            extend_items(&mut out, a, 0, k);
            extend_items(&mut out, b, 0, b.len());
            extend_items(&mut out, a, k, a.len());
            assert(items_view(out@) =~= inserted_at(items_view(a@), n, items_view(b@)));
            Ok(VariableValue::StringList(out))
        },
        _ => Err(ActionError::VariableWrongType),
    }
}

} // verus!
