//! The viewer core: the line store and the interaction state under one
//! owner, with the per-event steps that the two pumps drive — handle one
//! key, ingest one line — and the snapshot-consistent frame computation
//! that both trigger. The surrounding program owns the threads, the lock
//! around this structure, and the terminal itself.

use crate::lines::LineStore;
use crate::pattern::Pattern;
use crate::render;
use crate::render::Frame;
use crate::state;
use crate::state::{Key, State};
use vstd::prelude::*;

verus! {

pub use crate::state::Mode;

/// The engine state shared by the ingestion pump and the key pump.
pub struct App {
    pub raw_buffer: LineStore,
    pub state: State,
}

impl App {
    /// The standing invariant of the engine state.
    pub open spec fn wf(self) -> bool {
        self.state.wf()
    }

    /// A fresh viewer: no lines yet, Normal mode, empty query.
    pub fn new() -> (app: App)
        ensures
            app.raw_buffer@ == Seq::<Seq<char>>::empty(),
            app.state.mode == Mode::Normal,
            app.state.query@ == Seq::<char>::empty(),
            app.wf(),
    {
        App { raw_buffer: LineStore::new(), state: State::new() }
    }

    /// The footer for the current state at terminal width `width`: the
    /// query left-aligned, the mode label at the right edge.
    pub fn footer(&self, width: usize) -> (r: Vec<char>)
        ensures
            r@ == render::spec_footer(self.state.query@, self.state.mode, width as int),
    {
        render::compose_footer(&self.state.query, self.state.mode, width)
    }

    /// Handle one key event from the key pump. Returns whether the event
    /// was the interrupt key, which signals shutdown to the coordinator;
    /// every other key goes through the state machine, and the line store
    /// is never touched.
    pub fn on_key(&mut self, key: Key) -> (stop: bool)
        requires
            old(self).wf(),
        ensures
            final(self).wf(),
            stop == state::is_interrupt(key),
            final(self).raw_buffer@ == old(self).raw_buffer@,
            (final(self).state.mode, final(self).state.query@) == state::spec_process_key(
                old(self).state.mode,
                old(self).state.query@,
                key,
            ),
    {
        let stop = match key {
            Key::Ctrl(c) => c == 'c',
            _ => false,
        };
        if !stop {
            self.state.process_key(key);
        }
        stop
    }

    /// Ingest one line from the ingestion pump: appended at the end of the
    /// store, with the interaction state untouched.
    pub fn on_line(&mut self, line: Vec<char>)
        requires
            old(self).wf(),
        ensures
            final(self).wf(),
            final(self).raw_buffer@ == old(self).raw_buffer@.push(line@),
            final(self).state == old(self).state,
    {
        self.raw_buffer.append(line);
    }

    /// Compute the frame for one redraw at the given terminal size: the
    /// pattern is rebuilt from the live query, the most recent lines fill
    /// the content rows newest-at-bottom, and the footer closes the frame.
    pub fn render_frame(&self, width: usize, height: usize) -> (f: Frame)
        requires
            height >= 1,
        ensures
            render::frame_ok(
                f,
                self.raw_buffer@,
                self.state.query@,
                self.state.mode,
                width as int,
                height as int,
            ),
    {
        let pat = Pattern::build(&self.state.query);
        render::render(&self.raw_buffer, &pat, self.state.mode, width, height)
    }
}

} // verus!
