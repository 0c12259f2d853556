use vstd::prelude::*;
use crate::color::Color;

verus! {

/// What a chart holds, as mathematical values.
pub struct ChartModel<P> {
    pub data: Seq<P>,
    pub color: Color,
}

/// The points and the color of one chart.
pub struct ChartData<P> {
    pub data: Vec<P>,
    pub color: Color,
}

impl<P> View for ChartData<P> {
    type V = ChartModel<P>;

    open spec fn view(&self) -> ChartModel<P> {
        ChartModel { data: self.data@, color: self.color }
    }
}

/// A plotting session: identifiers are handed out as 0, 1, 2, ... and each
/// identifier owns at most one chart entry.
///
/// Slot `i` of the table belongs to identifier `i`; it stays empty until a
/// chart attached under `i` receives its data or its color.
pub struct Plotter<P> {
    charts: Vec<Option<ChartData<P>>>,
}

/// The entry of one slot, as mathematical values.
pub open spec fn slot_view<P>(slot: Option<ChartData<P>>) -> Option<ChartModel<P>> {
    match slot {
        Some(c) => Some(c@),
        None => None,
    }
}

impl<P> View for Plotter<P> {
    type V = Seq<Option<ChartModel<P>>>;

    /// One element per allocated identifier: its entry, if one was created.
    closed spec fn view(&self) -> Seq<Option<ChartModel<P>>> {
        self.charts@.map_values(|s: Option<ChartData<P>>| slot_view(s))
    }
}

/// The session after one more identifier was allocated.
pub open spec fn attached<P>(s: Seq<Option<ChartModel<P>>>) -> Seq<Option<ChartModel<P>>> {
    s.push(None)
}

/// The color an entry keeps when only its data is written.
pub open spec fn color_of<P>(slot: Option<ChartModel<P>>) -> Color {
    match slot {
        Some(e) => e.color,
        None => Color::spec_transparent(),
    }
}

/// The data an entry keeps when only its color is written.
pub open spec fn data_of<P>(slot: Option<ChartModel<P>>) -> Seq<P> {
    match slot {
        Some(e) => e.data,
        None => Seq::empty(),
    }
}

/// The session after the data of `id` was set to `d`.
pub open spec fn with_data<P>(s: Seq<Option<ChartModel<P>>>, id: int, d: Seq<P>) -> Seq<
    Option<ChartModel<P>>,
> {
    s.update(id, Some(ChartModel { data: d, color: color_of(s[id]) }))
}

/// The session after the color of `id` was set to `c`.
pub open spec fn with_color<P>(s: Seq<Option<ChartModel<P>>>, id: int, c: Color) -> Seq<
    Option<ChartModel<P>>,
> {
    s.update(id, Some(ChartModel { data: data_of(s[id]), color: c }))
}

/// The entries of `s`, each with its identifier, in increasing order of
/// identifier.
pub open spec fn entries<P>(s: Seq<Option<ChartModel<P>>>) -> Seq<(usize, ChartModel<P>)>
    decreases s.len(),
{
    if s.len() == 0 {
        Seq::empty()
    } else {
        let rest = entries(s.drop_last());
        match s.last() {
            Some(e) => rest.push(((s.len() - 1) as usize, e)),
            None => rest,
        }
    }
}

/// An identifier paired with its entry, as mathematical values.
pub open spec fn pair_view<P>(e: (usize, ChartData<P>)) -> (usize, ChartModel<P>) {
    (e.0, e.1@)
}

impl<P> Plotter<P> {
    /// An empty session: no identifier allocated, no entry.
    pub fn new() -> (p: Plotter<P>)
        ensures
            p@ == Seq::<Option<ChartModel<P>>>::empty(),
    {
        let p = Plotter { charts: Vec::new() };
        assert(p@ =~= Seq::<Option<ChartModel<P>>>::empty());
        p
    }

    /// How many identifiers were allocated.
    pub fn allocated(&self) -> (n: usize)
        ensures
            n == self@.len(),
    {
        self.charts.len()
    }

    /// Allocates the next identifier: the number of identifiers allocated so far.
    pub fn next_id(&mut self) -> (id: usize)
        ensures
            id == old(self)@.len(),
            final(self)@ == attached(old(self)@),
    {
        let id = self.charts.len();
        self.charts.push(None);
        assert(self@ =~= attached(old(self)@));
        id
    }

    /// Replaces the data of the entry of `id`, creating the entry with the
    /// transparent color if it does not exist yet.
    pub fn data(&mut self, id: usize, data: Vec<P>)
        requires
            id < old(self)@.len(),
        ensures
            final(self)@ == with_data(old(self)@, id as int, data@),
    {
        let color = match &self.charts[id] {
            Some(c) => c.color,
            None => Color::transparent(),
        };
        self.charts.set(id, Some(ChartData { data, color }));
        assert(self@ =~= with_data(old(self)@, id as int, data@));
    }

    /// Replaces the color of the entry of `id`, creating the entry with no
    /// data if it does not exist yet.
    pub fn color(&mut self, id: usize, color: Color)
        requires
            id < old(self)@.len(),
        ensures
            final(self)@ == with_color(old(self)@, id as int, color),
    {
        if let Some(c) = &mut self.charts[id] {
            c.color = color;
        } else {
            self.charts.set(id, Some(ChartData { data: Vec::new(), color }));
        }
        assert(self@ =~= with_color(old(self)@, id as int, color));
    }

    /// Ends the session and hands over every entry with its identifier, in
    /// increasing order of identifier.
    pub fn take_all(self) -> (r: Vec<(usize, ChartData<P>)>)
        ensures
            r@.map_values(|e: (usize, ChartData<P>)| pair_view(e)) == entries(self@),
    {
        let ghost s = self@;
        let mut charts = self.charts;
        let mut r: Vec<(usize, ChartData<P>)> = Vec::new();
        assert(s.take(charts@.len() as int) =~= s);
        assert(entries(s) =~= entries(s) + r@.map_values(|e: (usize, ChartData<P>)| pair_view(e)));
        while charts.len() > 0
            invariant
                charts@.len() <= s.len(),
                forall|i: int| 0 <= i < charts@.len() ==> slot_view(charts@[i]) == s[i],
                entries(s) == entries(s.take(charts@.len() as int)) + r@.map_values(
                    |e: (usize, ChartData<P>)| pair_view(e),
                ),
            decreases charts@.len(),
        {
            let id = charts.len() - 1;
            let ghost before = s.take(charts@.len() as int);
            let slot = charts.pop();
            assert(s.take(charts@.len() as int) =~= before.drop_last());
            let ghost r0 = r@.map_values(|e: (usize, ChartData<P>)| pair_view(e));
            if let Some(Some(c)) = slot {
                r.insert(0, (id, c));
                assert(r@.map_values(|e: (usize, ChartData<P>)| pair_view(e)) =~= seq![
                    (id, c@),
                ] + r0);
            }
        }
        assert(s.take(0) =~= Seq::<Option<ChartModel<P>>>::empty());
        assert(r@.map_values(|e: (usize, ChartData<P>)| pair_view(e)) =~= entries(s));
        r
    }
}


/// A handle on one chart of a session: every call writes into the entry of
/// the identifier it was given when it was attached.
pub struct Chart<'a, P> {
    pub id: usize,
    pub plotter: &'a mut Plotter<P>,
}

impl<'a, P> Chart<'a, P> {
    /// Attaches a new chart to `plotter` under the next identifier.
    pub fn on(plotter: &'a mut Plotter<P>) -> (c: Chart<'a, P>)
        ensures
            c.id == old(plotter)@.len(),
            c.plotter@ == attached(old(plotter)@),
            *final(c.plotter) == *final(plotter),
    {
        let id = plotter.next_id();
        Chart { id, plotter }
    }

    /// Sets the chart's points.
    pub fn data(self, data: Vec<P>) -> (c: Chart<'a, P>)
        requires
            self.id < self.plotter@.len(),
        ensures
            c.id == self.id,
            c.plotter@ == with_data(old(self.plotter)@, self.id as int, data@),
            *final(c.plotter) == *final(self.plotter),
    {
        let Chart { id, plotter } = self;
        plotter.data(id, data);
        Chart { id, plotter }
    }

    /// Sets the chart's color.
    pub fn color(self, color: Color) -> (c: Chart<'a, P>)
        requires
            self.id < self.plotter@.len(),
        ensures
            c.id == self.id,
            c.plotter@ == with_color(old(self.plotter)@, self.id as int, color),
            *final(c.plotter) == *final(self.plotter),
    {
        let Chart { id, plotter } = self;
        plotter.color(id, color);
        Chart { id, plotter }
    }
}

} // verus!
