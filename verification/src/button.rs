//! The development kit's push button, sampled by polling. The button pulls
//! its pin low while it is held, so the pin's level rises when the button is
//! let go: that release is the "rising edge" that the monitor reacts to.

use vstd::prelude::*;

verus! {

/// Whether a sample is a rising edge: the button was held at the previous
/// sample and is not held now.
pub open spec fn rising_edge(was_pressed: bool, is_pressed: bool) -> bool {
    was_pressed && !is_pressed
}

/// The button's edge detector: it remembers the previous sample.
pub struct Button {
    was_pressed: bool,
}

impl View for Button {
    /// Whether the button was held at the previous sample.
    type V = bool;

    closed spec fn view(&self) -> bool {
        self.was_pressed
    }
}

impl Button {
    /// A detector that has seen the button not held.
    pub fn new() -> (button: Button)
        ensures
            !button@,
    {
        Button { was_pressed: false }
    }

    /// Takes a sample (`is_pressed`: the button is held now) and tells
    /// whether it is a rising edge.
    pub fn check_rising_edge(&mut self, is_pressed: bool) -> (edge: bool)
        ensures
            edge == rising_edge(old(self)@, is_pressed),
            final(self)@ == is_pressed,
    {
        let mut edge = false;
        if self.was_pressed && !is_pressed {
            edge = true;
        }
        self.was_pressed = is_pressed;
        edge
    }
}

/// Two samples in a row are never both rising edges: after an edge the
/// button is known to be released.
pub proof fn lemma_no_double_edge(was_pressed: bool, first: bool, second: bool)
    requires
        rising_edge(was_pressed, first),
    ensures
        !rising_edge(first, second),
{
}

/// A button that stays as it was gives no edge, and a held button never
/// does: an edge is always a release.
pub proof fn lemma_edge_is_release(was_pressed: bool, is_pressed: bool)
    ensures
        was_pressed == is_pressed ==> !rising_edge(was_pressed, is_pressed),
        is_pressed ==> !rising_edge(was_pressed, is_pressed),
        rising_edge(was_pressed, is_pressed) ==> was_pressed && !is_pressed,
{
}

/// The sample before the `i`-th one of `samples`; before the first one it
/// is `was_pressed`.
pub open spec fn prev_sample(was_pressed: bool, samples: Seq<bool>, i: int) -> bool {
    if i == 0 {
        was_pressed
    } else {
        samples[i - 1]
    }
}

/// The detector's state after a run of samples: each call keeps its
/// sample, so it is the last one, or `was_pressed` after no sample.
pub open spec fn last_sample(was_pressed: bool, samples: Seq<bool>) -> bool {
    if samples.len() == 0 {
        was_pressed
    } else {
        samples.last()
    }
}

/// The number of releases in `samples`: the indices `i` where the button
/// was held at the sample before and is not held at sample `i`.
pub open spec fn count_releases(was_pressed: bool, samples: Seq<bool>) -> nat
    decreases samples.len(),
{
    if samples.len() == 0 {
        0
    } else {
        let i = samples.len() - 1;
        count_releases(was_pressed, samples.drop_last()) + if prev_sample(was_pressed, samples, i)
            && !samples[i] {
            1nat
        } else {
            0nat
        }
    }
}

/// The results of calling `check_rising_edge` with each of `samples` in
/// turn, on a detector whose state was `was_pressed`: each call reports
/// `rising_edge` of the state that the calls before it left and its sample.
pub open spec fn run_edges(was_pressed: bool, samples: Seq<bool>) -> Seq<bool>
    decreases samples.len(),
{
    if samples.len() == 0 {
        Seq::empty()
    } else {
        let before = samples.drop_last();
        run_edges(was_pressed, before).push(
            rising_edge(last_sample(was_pressed, before), samples.last()),
        )
    }
}

/// The number of `true` results in `results`.
pub open spec fn count_true(results: Seq<bool>) -> nat
    decreases results.len(),
{
    if results.len() == 0 {
        0
    } else {
        count_true(results.drop_last()) + if results.last() {
            1nat
        } else {
            0nat
        }
    }
}

/// Over a run of samples, starting from `Button::new` (`was_pressed` false)
/// or any other state: the `i`-th result is a rising edge exactly when the
/// sample before it was held and sample `i` is not, the edges counted are
/// the releases, and the detector ends holding the last sample.
pub proof fn lemma_edges_over_run(was_pressed: bool, samples: Seq<bool>)
    ensures
        run_edges(was_pressed, samples).len() == samples.len(),
        forall|i: int|
            0 <= i < samples.len() ==> #[trigger] run_edges(was_pressed, samples)[i] == (
            prev_sample(was_pressed, samples, i) && !samples[i]),
        count_true(run_edges(was_pressed, samples)) == count_releases(was_pressed, samples),
    decreases samples.len(),
{
    if samples.len() > 0 {
        let before = samples.drop_last();
        let n = samples.len() - 1;
        lemma_edges_over_run(was_pressed, before);
        let edges = run_edges(was_pressed, samples);
        assert(edges.drop_last() =~= run_edges(was_pressed, before));
        assert forall|i: int| 0 <= i < samples.len() implies #[trigger] edges[i] == (prev_sample(
            was_pressed,
            samples,
            i,
        ) && !samples[i]) by {
            if i < n {
                assert(edges[i] == run_edges(was_pressed, before)[i]);
                assert(prev_sample(was_pressed, samples, i) == prev_sample(was_pressed, before, i));
            } else {
                assert(last_sample(was_pressed, before) == prev_sample(was_pressed, samples, i));
            }
        }
        assert(count_releases(was_pressed, before) == count_releases(was_pressed, samples.drop_last()));
    }
}

} // verus!
