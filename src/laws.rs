//! Laws of a session, stated over the models that the methods' contracts use.
use vstd::prelude::*;
use crate::color::Color;
use crate::plotter::{attached, color_of, data_of, entries, with_color, with_data, ChartModel};

verus! {

/// One call on a session.
pub enum Step<P> {
    /// A chart is attached: the next identifier is allocated.
    Attach,
    /// The data of an identifier is set.
    SetData(usize, Seq<P>),
    /// The color of an identifier is set.
    SetColor(usize, Color),
}

/// The session after `step`; a write to an identifier that was never
/// allocated changes nothing.
pub open spec fn apply<P>(s: Seq<Option<ChartModel<P>>>, step: Step<P>) -> Seq<
    Option<ChartModel<P>>,
> {
    match step {
        Step::Attach => attached(s),
        Step::SetData(id, d) => if id < s.len() {
            with_data(s, id as int, d)
        } else {
            s
        },
        Step::SetColor(id, c) => if id < s.len() {
            with_color(s, id as int, c)
        } else {
            s
        },
    }
}

/// A fresh session after `steps`, in order.
pub open spec fn run<P>(steps: Seq<Step<P>>) -> Seq<Option<ChartModel<P>>>
    decreases steps.len(),
{
    if steps.len() == 0 {
        Seq::empty()
    } else {
        apply(run(steps.drop_last()), steps.last())
    }
}

/// How many of `steps` attach a chart.
pub open spec fn attach_count<P>(steps: Seq<Step<P>>) -> nat
    decreases steps.len(),
{
    if steps.len() == 0 {
        0
    } else {
        attach_count(steps.drop_last()) + if steps.last() is Attach {
            1nat
        } else {
            0nat
        }
    }
}

/// Whether `step` sets the data of `id`.
pub open spec fn writes_data<P>(step: Step<P>, id: int) -> bool {
    match step {
        Step::SetData(i, _) => i == id,
        _ => false,
    }
}

/// Whether `step` sets the color of `id`.
pub open spec fn writes_color<P>(step: Step<P>, id: int) -> bool {
    match step {
        Step::SetColor(i, _) => i == id,
        _ => false,
    }
}

proof fn lemma_attach_count_monotone<P>(steps: Seq<Step<P>>, a: int, b: int)
    requires
        0 <= a <= b <= steps.len(),
    ensures
        attach_count(steps.take(a)) <= attach_count(steps.take(b)),
    decreases b - a,
{
    if a < b {
        lemma_attach_count_monotone(steps, a, b - 1);
        assert(steps.take(b).drop_last() =~= steps.take(b - 1));
    }
}

/// Whatever the calls, a session has allocated exactly one identifier per
/// attach call, and the attach call at position `j` receives the number of
/// attach calls before it: 0, 1, 2, ... with no identifier given twice.
pub proof fn lemma_identifiers_sequential<P>(steps: Seq<Step<P>>)
    ensures
        run(steps).len() == attach_count(steps),
        forall|j: int|
            0 <= j <= steps.len() ==> #[trigger] run(steps.take(j)).len() == attach_count(
                steps.take(j),
            ),
        forall|j: int, k: int|
            0 <= j < k < steps.len() && steps[j] is Attach && steps[k] is Attach ==> attach_count(
                #[trigger] steps.take(j),
            ) < attach_count(#[trigger] steps.take(k)),
    decreases steps.len(),
{
    if steps.len() > 0 {
        lemma_identifiers_sequential(steps.drop_last());
    }
    assert forall|j: int|
        0 <= j <= steps.len() implies #[trigger] run(steps.take(j)).len() == attach_count(
            steps.take(j),
        ) by {
        if j < steps.len() {
            assert(steps.drop_last().take(j) =~= steps.take(j));
        } else {
            assert(steps.take(j) =~= steps);
        }
    }
    assert forall|j: int, k: int|
        0 <= j < k < steps.len() && steps[j] is Attach && steps[k] is Attach implies attach_count(
            #[trigger] steps.take(j),
        ) < attach_count(#[trigger] steps.take(k)) by {
        assert(steps.take(j + 1).drop_last() =~= steps.take(j));
        lemma_attach_count_monotone(steps, j + 1, k);
    }
}

/// Setting the data and the color of an allocated identifier gives an entry
/// with both, whichever is set first.
pub proof fn lemma_data_color_commute<P>(
    s: Seq<Option<ChartModel<P>>>,
    id: int,
    d: Seq<P>,
    c: Color,
)
    requires
        0 <= id < s.len(),
    ensures
        with_color(with_data(s, id, d), id, c) == with_data(with_color(s, id, c), id, d),
        with_color(with_data(s, id, d), id, c) == s.update(
            id,
            Some(ChartModel { data: d, color: c }),
        ),
{
    assert(with_color(with_data(s, id, d), id, c) =~= s.update(
        id,
        Some(ChartModel { data: d, color: c }),
    ));
    assert(with_data(with_color(s, id, c), id, d) =~= s.update(
        id,
        Some(ChartModel { data: d, color: c }),
    ));
}

/// An identifier whose data was never set has no points; one whose color was
/// never set is transparent.
pub proof fn lemma_unset_fields_default<P>(steps: Seq<Step<P>>, id: int)
    requires
        0 <= id < run(steps).len(),
    ensures
        (forall|j: int| 0 <= j < steps.len() ==> !writes_data(#[trigger] steps[j], id)) ==> data_of(
            run(steps)[id],
        ) == Seq::<P>::empty(),
        (forall|j: int| 0 <= j < steps.len() ==> !writes_color(#[trigger] steps[j], id))
            ==> color_of(run(steps)[id]) == Color::spec_transparent(),
    decreases steps.len(),
{
    let rest = steps.drop_last();
    let s = run(rest);
    if id < s.len() {
        lemma_unset_fields_default(rest, id);
        if forall|j: int| 0 <= j < steps.len() ==> !writes_data(#[trigger] steps[j], id) {
            assert forall|j: int| 0 <= j < rest.len() implies !writes_data(
                #[trigger] rest[j],
                id,
            ) by {
                assert(rest[j] == steps[j]);
            }
            assert(!writes_data(steps[steps.len() - 1], id));
        }
        if forall|j: int| 0 <= j < steps.len() ==> !writes_color(#[trigger] steps[j], id) {
            assert forall|j: int| 0 <= j < rest.len() implies !writes_color(
                #[trigger] rest[j],
                id,
            ) by {
                assert(rest[j] == steps[j]);
            }
            assert(!writes_color(steps[steps.len() - 1], id));
        }
    }
}

/// `r` lists the entries of `s`: each with its identifier, in increasing
/// order of identifier, none left out and none added.
pub open spec fn lists_entries<P>(
    s: Seq<Option<ChartModel<P>>>,
    r: Seq<(usize, ChartModel<P>)>,
) -> bool {
    &&& forall|k: int, l: int| 0 <= k < l < r.len() ==> r[k].0 < r[l].0
    &&& forall|k: int| 0 <= k < r.len() ==> r[k].0 < s.len() && s[r[k].0 as int] == Some(r[k].1)
    &&& forall|i: int|
        0 <= i < s.len() && s[i] is Some ==> exists|k: int| 0 <= k < r.len() && r[k].0 == i
}

/// Handing over a session yields each entry that was created, under its
/// identifier, once, and nothing else.
pub proof fn lemma_entries_exact<P>(s: Seq<Option<ChartModel<P>>>)
    requires
        s.len() <= usize::MAX,
    ensures
        lists_entries(s, entries(s)),
    decreases s.len(),
{
    if s.len() > 0 {
        let rest = s.drop_last();
        lemma_entries_exact(rest);
        let r = entries(s);
        let r0 = entries(rest);
        assert forall|i: int| 0 <= i < s.len() && s[i] is Some implies exists|k: int|
            0 <= k < r.len() && r[k].0 == i by {
            if i == s.len() - 1 {
                assert(r[r.len() - 1].0 == i);
            } else {
                assert(rest[i] == s[i]);
                let k = choose|k: int| 0 <= k < r0.len() && r0[k].0 == i;
                assert(r[k] == r0[k]);
            }
        }
        assert forall|k: int| 0 <= k < r.len() implies r[k].0 < s.len() && s[r[k].0 as int]
            == Some(r[k].1) by {
            if k < r0.len() {
                assert(r[k] == r0[k]);
                assert(rest[r0[k].0 as int] == s[r0[k].0 as int]);
            }
        }
    }
}

} // verus!
