//! The shared console: one writer behind a busy-wait lock.

use vstd::prelude::*;
use vstd::string::*;
use spinning_top::guard::SpinlockGuard;
use spinning_top::Spinlock;
use crate::cell::Buffer;
use crate::color::ColorCode;
use crate::screen::Screen;
use crate::writer::{shown_rows, Writer};

verus! {

/// A writer behind a `spinning_top::Spinlock`. The writer is reached only through
/// the lock, so nothing is known of its state from outside.
///
/// The lock's own types are bounded by traits of the lock crates, which the
/// verifier does not take in a declaration; the lock and its guard are therefore
/// kept inside two structs that the verifier treats as opaque.
#[verifier::external_body]
pub struct SharedWriter<'b> {
    lock: Spinlock<Writer<'b>>,
}

/// The held lock of a `SharedWriter`, a `spinning_top::guard::SpinlockGuard`. The
/// lock is released when the guard is dropped.
#[verifier::external_body]
pub struct WriterGuard<'a, 'b> {
    guard: SpinlockGuard<'a, Writer<'b>>,
}

/// What the writer showed when it was put behind the lock. Those who hold the
/// lock later change what the writer shows; what it was made with stays.
pub uninterp spec fn made_with(shared: SharedWriter) -> Screen;

/// `Spinlock::new`: puts the writer behind a lock that nobody holds yet. The
/// writer is stored as it is given.
#[verifier::external_body]
fn lock_around<'b>(writer: Writer<'b>) -> (shared: SharedWriter<'b>)
    ensures
        made_with(shared) == writer@,
{
    SharedWriter { lock: Spinlock::new(writer) }
}

/// `Spinlock::lock`: spins until the lock is free, takes it and hands back the
/// guard. Nothing is claimed of the writer under the lock. The call does not
/// return while another holder keeps the lock, so a caller that already holds the
/// guard and asks again waits forever.
#[verifier::external_body]
fn acquire<'a, 'b>(shared: &'a SharedWriter<'b>) -> (held: WriterGuard<'a, 'b>) {
    WriterGuard { guard: shared.lock.lock() }
}

/// What the writer under a held lock shows. While the guard lives nobody else
/// reaches that writer.
pub uninterp spec fn held_screen(held: WriterGuard) -> Screen;

/// `DerefMut::deref_mut` on the guard: exclusive access to the writer under the
/// lock for as long as the guard is borrowed. The writer handed out is the one
/// that the guard holds, and what is done to it is done to that one.
#[verifier::external_body]
fn held_writer<'g, 'a, 'b>(held: &'g mut WriterGuard<'a, 'b>) -> (writer: &'g mut Writer<'b>)
    ensures
        writer@ == held_screen(*old(held)),
        held_screen(*final(held)) == final(writer)@,
{
    &mut *held.guard
}

impl<'a, 'b> View for WriterGuard<'a, 'b> {
    type V = Screen;

    closed spec fn view(&self) -> Screen {
        held_screen(*self)
    }
}

impl<'a, 'b> WriterGuard<'a, 'b> {
    /// Writes a text through the writer under the held lock, as
    /// `Writer::write_str` does.
    pub fn write_str(&mut self, s: &str)
        ensures
            final(self)@ == old(self)@.write_all(s.spec_bytes()),
            final(self)@.wf(),
            final(self)@.color == old(self)@.color,
    {
        let writer = held_writer(self);
        writer.write_str(s);
    }
}

impl<'b> SharedWriter<'b> {
    /// What the console showed when it was made, before anybody took the lock.
    pub closed spec fn initial(&self) -> Screen {
        made_with(*self)
    }

    /// A shared console on the given grid: a writer in the given color, with the
    /// cursor at the start of the bottom row and the grid showing what it showed
    /// before, behind a lock that nobody holds.
    pub fn new(color_code: ColorCode, buffer: &'b mut Buffer) -> (shared: SharedWriter<'b>)
        ensures
            shared.initial() == (Screen {
                rows: shown_rows(*old(buffer)),
                column: 0,
                color: color_code,
            }),
            shared.initial().wf(),
    {
        lock_around(Writer::new(color_code, buffer))
    }

    /// Takes the lock, waiting for as long as another holder keeps it. What the
    /// writer shows at that moment depends on what the earlier holders wrote; it
    /// is well formed whatever they wrote.
    pub fn lock<'a>(&'a self) -> (held: WriterGuard<'a, 'b>)
        ensures
            held@.wf(),
    {
        let mut held = acquire(self);
        // One look at the writer under the lock shows that it is well formed.
        let writer = held_writer(&mut held);
        proof {
            use_type_invariant(&*writer);
            writer.lemma_wf();
        }
        held
    }
}

/// Renders a text through the shared writer. The lock is taken once and held
/// until the whole text is written, so that no other caller's text can come
/// between its bytes; what the writer then shows is what `Writer::write_str`
/// makes of what it showed when the lock was taken.
pub fn _print<'b>(shared: &SharedWriter<'b>, text: &str) {
    let mut held = shared.lock();
    held.write_str(text);
}

} // verus!
