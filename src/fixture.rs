use vstd::prelude::*;

verus! {

/// One write to a segment of points, as plain values: a vector is given by
/// its whole-number components.
#[derive(Debug)]
pub enum PointWrite {
    /// Inserts or replaces point `point_id` with `vector`.
    Upsert { op_num: u64, point_id: u64, vector: Vec<i64> },
    /// Sets the payload of point `point_id`: `key` maps to the list `values`.
    SetPayload { op_num: u64, point_id: u64, key: String, values: Vec<String> },
}

/// A point write, abstractly.
pub enum WriteView {
    Upsert { op_num: u64, point_id: u64, vector: Seq<i64> },
    SetPayload { op_num: u64, point_id: u64, key: Seq<char>, values: Seq<Seq<char>> },
}

impl View for PointWrite {
    type V = WriteView;

    open spec fn view(&self) -> WriteView {
        match self {
            PointWrite::Upsert { op_num, point_id, vector } => WriteView::Upsert {
                op_num: *op_num,
                point_id: *point_id,
                vector: vector@,
            },
            PointWrite::SetPayload { op_num, point_id, key, values } => WriteView::SetPayload {
                op_num: *op_num,
                point_id: *point_id,
                key: key@,
                values: values@.map_values(|v: String| v@),
            },
        }
    }
}

/// The writes bound for one segment, in the order they are to be applied.
pub struct SegmentWrites {
    pub writes: Vec<PointWrite>,
}

impl View for SegmentWrites {
    type V = Seq<WriteView>;

    open spec fn view(&self) -> Seq<WriteView> {
        self.writes@.map_values(|w: PointWrite| w@)
    }
}

impl SegmentWrites {
    /// No writes.
    pub fn new() -> (r: SegmentWrites)
        ensures
            r@ == Seq::<WriteView>::empty(),
    {
        let r = SegmentWrites { writes: Vec::new() };
        assert(r@ =~= Seq::<WriteView>::empty());
        r
    }

    /// Appends `w`.
    pub fn push(&mut self, w: PointWrite)
        ensures
            final(self)@ == old(self)@.push(w@),
    {
        self.writes.push(w);
        assert(final(self)@ =~= old(self)@.push(w@));
    }
}

/// The name of the payload field that the fixture sets.
pub open spec fn color_key() -> Seq<char> {
    "color"@
}

/// The five four-dimensional points of the fixture, then their colours: points
/// 1 and 2 red, 3 blue, 4 and 5 both red and blue.
pub open spec fn segment1_dim4() -> Seq<WriteView> {
    let red = seq!["red"@];
    let blue = seq!["blue"@];
    let both = seq!["red"@, "blue"@];
    seq![
        WriteView::Upsert { op_num: 1, point_id: 1, vector: seq![1, 0, 1, 1] },
        WriteView::Upsert { op_num: 2, point_id: 2, vector: seq![1, 0, 1, 0] },
        WriteView::Upsert { op_num: 3, point_id: 3, vector: seq![1, 1, 1, 1] },
        WriteView::Upsert { op_num: 4, point_id: 4, vector: seq![1, 1, 0, 1] },
        WriteView::Upsert { op_num: 5, point_id: 5, vector: seq![1, 0, 0, 0] },
        WriteView::SetPayload { op_num: 6, point_id: 1, key: color_key(), values: red },
        WriteView::SetPayload { op_num: 6, point_id: 2, key: color_key(), values: red },
        WriteView::SetPayload { op_num: 6, point_id: 3, key: color_key(), values: blue },
        WriteView::SetPayload { op_num: 6, point_id: 4, key: color_key(), values: both },
        WriteView::SetPayload { op_num: 6, point_id: 5, key: color_key(), values: both },
    ]
}

fn four(a: i64, b: i64, c: i64, d: i64) -> (r: Vec<i64>)
    ensures
        r@ == seq![a, b, c, d],
{
    let r = vec![a, b, c, d];
    assert(r@ =~= seq![a, b, c, d]);
    r
}

fn colours(red: bool, blue: bool) -> (r: Vec<String>)
    ensures
        r@.map_values(|v: String| v@) == (if red && blue {
            seq!["red"@, "blue"@]
        } else if red {
            seq!["red"@]
        } else if blue {
            seq!["blue"@]
        } else {
            Seq::empty()
        }),
{
    let mut r: Vec<String> = Vec::new();
    if red {
        r.push("red".to_owned());
    }
    if blue {
        r.push("blue".to_owned());
    }
    assert(r@.map_values(|v: String| v@) =~= (if red && blue {
        seq!["red"@, "blue"@]
    } else if red {
        seq!["red"@]
    } else if blue {
        seq!["blue"@]
    } else {
        Seq::empty()
    }));
    r
}

fn set_color(segment: &mut SegmentWrites, point_id: u64, red: bool, blue: bool)
    ensures
        final(segment)@ == old(segment)@.push(
            WriteView::SetPayload {
                op_num: 6,
                point_id,
                key: color_key(),
                values: (if red && blue {
                    seq!["red"@, "blue"@]
                } else if red {
                    seq!["red"@]
                } else if blue {
                    seq!["blue"@]
                } else {
                    Seq::empty()
                }),
            },
        ),
{
    let values = colours(red, blue);
    segment.push(PointWrite::SetPayload { op_num: 6, point_id, key: "color".to_owned(), values });
}

/// Appends the writes that fill the four-dimensional test segment: five
/// upserts of points 1 to 5, then the colour payload of each.
pub fn fill_segment1_dim4(segment: &mut SegmentWrites)
    ensures
        final(segment)@ == old(segment)@ + segment1_dim4(),
{
    segment.push(PointWrite::Upsert { op_num: 1, point_id: 1, vector: four(1, 0, 1, 1) });
    segment.push(PointWrite::Upsert { op_num: 2, point_id: 2, vector: four(1, 0, 1, 0) });
    segment.push(PointWrite::Upsert { op_num: 3, point_id: 3, vector: four(1, 1, 1, 1) });
    segment.push(PointWrite::Upsert { op_num: 4, point_id: 4, vector: four(1, 1, 0, 1) });
    segment.push(PointWrite::Upsert { op_num: 5, point_id: 5, vector: four(1, 0, 0, 0) });
    set_color(segment, 1, true, false);
    set_color(segment, 2, true, false);
    set_color(segment, 3, false, true);
    set_color(segment, 4, true, true);
    set_color(segment, 5, true, true);
    assert(final(segment)@ =~= old(segment)@ + segment1_dim4());
}

} // verus!
