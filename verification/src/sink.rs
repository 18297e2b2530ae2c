//! The render sink: a slot holding zero or one render target, with a
//! bounded append and a teardown.
//!
//! The target is modelled as the sequence of lines it currently shows.
//! `append` adds a line at the end and, once the target has grown past the
//! high-water mark, trims the oldest fixed window of lines; `teardown`
//! empties the slot, after which every further operation is a no-op.

use vstd::prelude::*;

verus! {

/// Line count above which an append triggers a trim of the oldest lines.
pub const HIGH_WATER: usize = 200;

/// How many of the oldest lines one trim removes.
pub const TRIM_COUNT: usize = 180;

/// What one call of [`RenderSink::append`] reported.
#[derive(PartialEq, Eq, Structural, Clone, Copy, Debug)]
pub enum AppendOutcome {
    /// The line was appended to the target.
    Appended,
    /// No target is present; nothing was changed. Recoverable.
    NoTarget,
}

/// A slot holding zero or one render target, each target a list of lines.
pub struct RenderSink {
    target: Option<Vec<String>>,
}

/// The lines after appending `line` to a present target: the line goes
/// last and, if the target already held more than [`HIGH_WATER`] lines,
/// the oldest [`TRIM_COUNT`] lines are removed.
pub open spec fn append_lines(lines: Seq<Seq<char>>, line: Seq<char>) -> Seq<Seq<char>> {
    let grown = lines.push(line);
    if lines.len() > HIGH_WATER {
        grown.skip(TRIM_COUNT as int)
    } else {
        grown
    }
}

/// The sink model after an append: unchanged when no target is present.
pub open spec fn sink_after_append(m: Option<Seq<Seq<char>>>, line: Seq<char>) -> Option<
    Seq<Seq<char>>,
> {
    match m {
        Option::None => Option::None,
        Option::Some(lines) => Option::Some(append_lines(lines, line)),
    }
}

/// The sink model after a teardown: the slot is always empty.
pub open spec fn sink_after_teardown(m: Option<Seq<Seq<char>>>) -> Option<Seq<Seq<char>>> {
    Option::None
}

/// Below the high-water mark an append only adds the line at the end:
/// nothing is trimmed.
pub proof fn lemma_append_below_high_water(lines: Seq<Seq<char>>, line: Seq<char>)
    requires
        lines.len() <= HIGH_WATER,
    ensures
        append_lines(lines, line) == lines.push(line),
{
}

/// Past the high-water mark an append keeps exactly the tail: survivor
/// `k` of the result is old line `k + TRIM_COUNT` — the relative order
/// of survivors is preserved — and the appended line comes last.
pub proof fn lemma_trim_keeps_tail_in_order(lines: Seq<Seq<char>>, line: Seq<char>)
    requires
        lines.len() > HIGH_WATER,
    ensures
        append_lines(lines, line).len() == lines.len() + 1 - TRIM_COUNT,
        forall|k: int|
            0 <= k < lines.len() - TRIM_COUNT ==> append_lines(lines, line)[k] == lines[k
                + TRIM_COUNT],
        append_lines(lines, line).last() == line,
{
    let grown = lines.push(line);
    assert forall|k: int| 0 <= k < lines.len() - TRIM_COUNT implies append_lines(lines, line)[k]
        == lines[k + TRIM_COUNT] by {
        assert(grown.skip(TRIM_COUNT as int)[k] == grown[k + TRIM_COUNT]);
    }
}

/// One sink operation, as the model sees it.
pub enum SinkOp {
    /// An append of one line.
    Append(Seq<char>),
    /// A teardown of the slot.
    Teardown,
}

/// The sink model after one operation.
pub open spec fn sink_after_op(m: Option<Seq<Seq<char>>>, op: SinkOp) -> Option<Seq<Seq<char>>> {
    match op {
        SinkOp::Append(line) => sink_after_append(m, line),
        SinkOp::Teardown => sink_after_teardown(m),
    }
}

/// The sink model after a sequence of operations, applied in order.
pub open spec fn sink_after_ops(m: Option<Seq<Seq<char>>>, ops: Seq<SinkOp>) -> Option<
    Seq<Seq<char>>,
>
    decreases ops.len(),
{
    if ops.len() == 0 {
        m
    } else {
        sink_after_ops(sink_after_op(m, ops[0]), ops.drop_first())
    }
}

/// A teardown is absorbing: however many appends and teardowns follow it,
/// in whatever order, the slot stays empty — every one of them is a no-op.
pub proof fn lemma_teardown_is_absorbing(m: Option<Seq<Seq<char>>>, ops: Seq<SinkOp>)
    ensures
        sink_after_ops(sink_after_teardown(m), ops) == sink_after_teardown(m),
    decreases ops.len(),
{
    if ops.len() > 0 {
        assert(sink_after_op(sink_after_teardown(m), ops[0]) == sink_after_teardown(m));
        lemma_teardown_is_absorbing(m, ops.drop_first());
    }
}

impl View for RenderSink {
    type V = Option<Seq<Seq<char>>>;

    /// The sink as its model: the lines of the target, if one is present.
    closed spec fn view(&self) -> Option<Seq<Seq<char>>> {
        match self.target {
            Option::None => Option::None,
            Option::Some(v) => Option::Some(v@.map_values(|s: String| s@)),
        }
    }
}

impl RenderSink {
    /// A sink whose slot holds a fresh, empty target.
    pub fn new() -> (s: Self)
        ensures
            s@ == Option::Some(Seq::<Seq<char>>::empty()),
    {
        let s = RenderSink { target: Option::Some(Vec::new()) };
        proof {
            assert(s@->Some_0 =~= Seq::<Seq<char>>::empty());
        }
        s
    }

    /// A sink whose slot is empty, as it is after a teardown.
    pub fn without_target() -> (s: Self)
        ensures
            s@ is None,
    {
        RenderSink { target: Option::None }
    }

    /// Whether the slot currently holds a target.
    pub fn has_target(&self) -> (b: bool)
        ensures
            b == (self@ is Some),
    {
        self.target.is_some()
    }

    /// How many lines the target shows; zero when no target is present.
    pub fn line_count(&self) -> (n: usize)
        ensures
            match self@ {
                Option::Some(lines) => n == lines.len(),
                Option::None => n == 0,
            },
    {
        match &self.target {
            Option::Some(v) => v.len(),
            Option::None => 0,
        }
    }

    /// The line at index `i` of the present target.
    pub fn line_at(&self, i: usize) -> (s: &String)
        requires
            self@ is Some,
            i < self@->Some_0.len(),
        ensures
            s@ == self@->Some_0[i as int],
    {
        match &self.target {
            Option::Some(v) => &v[i],
            Option::None => unreached(),
        }
    }

    /// Appends `line` as the new last entry of the target and trims the
    /// oldest [`TRIM_COUNT`] lines once the target had grown past
    /// [`HIGH_WATER`] lines. When no target is present, reports
    /// [`AppendOutcome::NoTarget`] and changes nothing.
    pub fn append(&mut self, line: String) -> (r: AppendOutcome)
        ensures
            final(self)@ == sink_after_append(old(self)@, line@),
            r == (if old(self)@ is Some {
                AppendOutcome::Appended
            } else {
                AppendOutcome::NoTarget
            }),
    {
        match &mut self.target {
            Option::None => AppendOutcome::NoTarget,
            Option::Some(v) => {
                let ghost pre = v@.map_values(|s: String| s@);
                let count = v.len();
                v.push(line);
                proof {
                    assert(v@.map_values(|s: String| s@) =~= pre.push(line@));
                }
                if count > HIGH_WATER {
                    let ghost grown = v@;
                    let mut k: usize = 0;
                    while k < TRIM_COUNT
                        invariant
                            k <= TRIM_COUNT,
                            grown.len() == count + 1,
                            count + 1 > TRIM_COUNT,
                            v@ == grown.skip(k as int),
                        decreases TRIM_COUNT - k,
                    {
                        v.remove(0);
                        proof {
                            assert(grown.skip(k as int).subrange(
                                1,
                                grown.skip(k as int).len() as int,
                            ) =~= grown.skip(k + 1));
                        }
                        k = k + 1;
                    }
                    proof {
                        assert(v@.map_values(|s: String| s@) =~= pre.push(line@).skip(
                            TRIM_COUNT as int,
                        ));
                    }
                }
                AppendOutcome::Appended
            },
        }
    }

    /// Empties the slot, dropping the target if one was present; a no-op
    /// on an already-empty slot. Reports whether a target was taken.
    pub fn teardown(&mut self) -> (had: bool)
        ensures
            final(self)@ == sink_after_teardown(old(self)@),
            had == (old(self)@ is Some),
    {
        let had = self.target.is_some();
        self.target = Option::None;
        had
    }
}

} // verus!
