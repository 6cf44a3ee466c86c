//! The visible window into the rendered transcript.

use vstd::prelude::*;

verus! {

/// The scroll offset and the number of lines it may range over.
pub struct ScrollView {
    pub offset: nat,
    pub content_length: nat,
}

impl ScrollView {
    /// The largest offset allowed: the last line, or `0` with no content.
    pub open spec fn max_offset(self) -> nat {
        if self.content_length == 0 {
            0
        } else {
            (self.content_length - 1) as nat
        }
    }

    pub open spec fn offset_in_bounds(self) -> bool {
        self.offset <= self.max_offset()
    }

    pub open spec fn scrolled_up(self) -> ScrollView {
        ScrollView {
            offset: if self.offset == 0 { 0 } else { (self.offset - 1) as nat },
            content_length: self.content_length,
        }
    }

    pub open spec fn scrolled_down(self) -> ScrollView {
        ScrollView {
            offset: if self.offset + 1 <= self.max_offset() { self.offset + 1 } else { self.max_offset() },
            content_length: self.content_length,
        }
    }

    /// The state after `k` steps down.
    pub open spec fn scrolled_down_times(self, k: nat) -> ScrollView
        decreases k,
    {
        if k == 0 {
            self
        } else {
            self.scrolled_down_times((k - 1) as nat).scrolled_down()
        }
    }

    pub open spec fn with_length(self, n: nat) -> ScrollView {
        ScrollView {
            offset: if self.offset <= (ScrollView { offset: 0, content_length: n }).max_offset() {
                self.offset
            } else {
                (ScrollView { offset: 0, content_length: n }).max_offset()
            },
            content_length: n,
        }
    }
}

/// Scrolling down from the top `k` times reaches line `k`, never passing the last line.
pub proof fn lemma_scroll_down_steps(v: ScrollView, k: nat)
    requires
        v.offset == 0,
    ensures
        v.scrolled_down_times(k).offset == if k <= v.max_offset() { k } else { v.max_offset() },
        v.scrolled_down_times(k).content_length == v.content_length,
    decreases k,
{
    if k > 0 {
        lemma_scroll_down_steps(v, (k - 1) as nat);
    }
}

/// Scrolling down from the top at least as many times as there are lines ends on
/// the last line (offset `0` with no content); scrolling up from the top stays there.
pub proof fn lemma_scroll_clamps(v: ScrollView, k: nat)
    requires
        v.offset == 0,
        k >= v.content_length,
    ensures
        v.scrolled_down_times(k).offset == v.max_offset(),
        v.scrolled_down_times(k).offset_in_bounds(),
        v.scrolled_up().offset == 0,
{
    lemma_scroll_down_steps(v, k);
}

/// A scroll offset (the first transcript line shown) kept within the content.
pub struct ScrollState {
    start_line: u16,
    used_lines: u16,
}

impl View for ScrollState {
    type V = ScrollView;

    closed spec fn view(&self) -> ScrollView {
        ScrollView { offset: self.start_line as nat, content_length: self.used_lines as nat }
    }
}

impl ScrollState {
    #[verifier::type_invariant]
    spec fn offset_in_bounds(&self) -> bool {
        self@.offset_in_bounds()
    }

    /// At the top, with no content.
    pub fn new() -> (r: ScrollState)
        ensures
            r@ == (ScrollView { offset: 0, content_length: 0 }),
    {
        ScrollState { start_line: 0, used_lines: 0 }
    }

    /// One line up, stopping at the top.
    pub fn scroll_up(&mut self)
        ensures
            final(self)@ == old(self)@.scrolled_up(),
            final(self)@.offset_in_bounds(),
    {
        proof { use_type_invariant(&*self); }
        self.start_line = self.start_line.saturating_sub(1);
    }

    /// One line down, stopping at the last line.
    pub fn scroll_down(&mut self)
        ensures
            final(self)@ == old(self)@.scrolled_down(),
            final(self)@.offset_in_bounds(),
    {
        proof { use_type_invariant(&*self); }
        let last = self.used_lines.saturating_sub(1);
        if self.start_line < last {
            self.start_line = self.start_line + 1;
        } else {
            self.start_line = last;
        }
    }

    /// Back to the top.
    pub fn reset(&mut self)
        ensures
            final(self)@ == (ScrollView { offset: 0, content_length: old(self)@.content_length }),
    {
        self.start_line = 0;
    }

    /// Records how many lines there are to scroll over, pulling the offset back
    /// onto the last line if it now lies beyond it.
    pub fn sync_content_length(&mut self, n: u16)
        ensures
            final(self)@ == old(self)@.with_length(n as nat),
            final(self)@.offset_in_bounds(),
    {
        proof { use_type_invariant(&*self); }
        let last = n.saturating_sub(1);
        if self.start_line > last {
            self.start_line = last;
        }
        self.used_lines = n;
    }

    /// The first line shown.
    pub fn offset(&self) -> (r: u16)
        ensures
            r == self@.offset,
    {
        self.start_line
    }

    /// The number of lines to scroll over.
    pub fn content_length(&self) -> (r: u16)
        ensures
            r == self@.content_length,
    {
        self.used_lines
    }
}

} // verus!
