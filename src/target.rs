use vstd::prelude::*;

use crate::frame::{Frame, FrameCommand, FrameError, FrameSubmission};
use crate::geometry::{geometry_pass, lemma_entity_draws_are_drawn, Relation};

verus! {

/// How many submissions the history may hold once a new frame is started and the frame's own
/// submission is added: starting a frame evicts the oldest entries until fewer than this remain.
pub const SUBMISSION_BACKLOG: usize = 4;

/// The submission history as starting a frame leaves it: the oldest entries evicted until fewer
/// than `SUBMISSION_BACKLOG` remain.
pub open spec fn pruned_history<F>(history: Seq<F>) -> Seq<F> {
    if history.len() >= SUBMISSION_BACKLOG {
        history.subrange(history.len() - (SUBMISSION_BACKLOG - 1), history.len() as int)
    } else {
        history
    }
}

/// The copy commands that start a frame, for the uploads queued before it: the queue is drained
/// from its end, so the last upload queued is copied first.
pub open spec fn upload_commands<U>(queued: Seq<U>) -> Seq<FrameCommand<U>> {
    Seq::new(queued.len(), |i: int| FrameCommand::CopyBufferToImage(queued[queued.len() - 1 - i]))
}

/// The render target's frame lifecycle: the uploads waiting for the next frame and the bounded
/// history of submitted frames. `F` is the handle of a frame's in-flight work, `U` an upload (a
/// staging buffer with its destination image).
pub struct Target<F, U> {
    submissions: Vec<F>,
    queued_texture_copies: Vec<U>,
    width: u32,
    height: u32,
}

impl<F, U> Target<F, U> {
    /// The in-flight handles of submitted frames, oldest first.
    pub closed spec fn history(&self) -> Seq<F> {
        self.submissions@
    }

    /// The uploads queued for the next frame, in the order they were queued.
    pub closed spec fn pending_copies(&self) -> Seq<U> {
        self.queued_texture_copies@
    }

    pub closed spec fn spec_size(&self) -> (u32, u32) {
        (self.width, self.height)
    }

    /// A target of the given size in pixels, with nothing queued or submitted yet.
    pub fn new(width: u32, height: u32) -> (r: Self)
        ensures
            r.history().len() == 0,
            r.pending_copies().len() == 0,
            r.spec_size() == (width, height),
    {
        Target { submissions: Vec::new(), queued_texture_copies: Vec::new(), width, height }
    }

    /// Queues an upload; it is copied at the start of the next frame.
    pub fn queue_texture_copy(&mut self, copy: U)
        ensures
            final(self).pending_copies() == old(self).pending_copies().push(copy),
            final(self).history() == old(self).history(),
            final(self).spec_size() == old(self).spec_size(),
    {
        self.queued_texture_copies.push(copy);
    }

    /// Starts a frame on the acquired image: evicts the oldest submissions until fewer than
    /// `SUBMISSION_BACKLOG` remain, and drains every queued upload into copy commands that open
    /// the frame's command sequence. `acquired` is the handle of the image's acquisition.
    pub fn start_frame<B>(&mut self, framebuffer: B, image_num: usize, acquired: F) -> (r: Frame<
        B,
        F,
        U,
    >)
        ensures
            final(self).history() == pruned_history(old(self).history()),
            final(self).history().len() < SUBMISSION_BACKLOG,
            final(self).pending_copies().len() == 0,
            final(self).spec_size() == old(self).spec_size(),
            r.framebuffer == framebuffer,
            r.image_num == image_num,
            r.future == Some(acquired),
            r.commands@ == upload_commands(old(self).pending_copies()),
    {
        let ghost history = self.submissions@;
        while self.submissions.len() >= SUBMISSION_BACKLOG
            invariant
                history.len() >= self.submissions@.len(),
                self.submissions@ == history.subrange(
                    history.len() - self.submissions@.len(),
                    history.len() as int,
                ),
                history.len() >= SUBMISSION_BACKLOG ==> self.submissions@.len() >= SUBMISSION_BACKLOG
                    - 1,
                history.len() < SUBMISSION_BACKLOG ==> self.submissions@ == history,
                self.queued_texture_copies@ == old(self).queued_texture_copies@,
                self.width == old(self).width,
                self.height == old(self).height,
            decreases self.submissions@.len(),
        {
            self.submissions.remove(0);
        }
        let ghost queued = self.queued_texture_copies@;
        let mut commands: Vec<FrameCommand<U>> = Vec::new();
        while self.queued_texture_copies.len() > 0
            invariant
                queued.len() == self.queued_texture_copies@.len() + commands@.len(),
                self.queued_texture_copies@ == queued.subrange(
                    0,
                    self.queued_texture_copies@.len() as int,
                ),
                commands@ == Seq::new(
                    commands@.len(),
                    |i: int| FrameCommand::CopyBufferToImage(queued[queued.len() - 1 - i]),
                ),
                self.submissions@ == pruned_history(history),
                self.width == old(self).width,
                self.height == old(self).height,
            decreases self.queued_texture_copies@.len(),
        {
            let ghost before = commands@;
            match self.queued_texture_copies.pop() {
                Some(copy) => {
                    commands.push(FrameCommand::CopyBufferToImage(copy));
                    assert(commands@ =~= Seq::new(
                        commands@.len(),
                        |i: int| FrameCommand::CopyBufferToImage(queued[queued.len() - 1 - i]),
                    ));
                },
                None => {},
            }
        }
        assert(commands@ =~= upload_commands(queued));
        Frame { framebuffer, image_num, future: Some(acquired), commands }
    }

    /// Finishes a frame: takes its in-flight handle and its commands, to be submitted and
    /// presented. A frame can be finished once; finishing it again fails.
    pub fn finish_frame<B>(&self, frame: &mut Frame<B, F, U>) -> (r: Result<
        FrameSubmission<F, U>,
        FrameError,
    >)
        ensures
            r is Ok <==> !old(frame).spec_is_finished(),
            final(frame).spec_is_finished(),
            final(frame).framebuffer == old(frame).framebuffer,
            final(frame).image_num == old(frame).image_num,
            match r {
                Ok(s) => {
                    &&& old(frame).future == Some(s.future)
                    &&& s.image_num == old(frame).image_num
                    &&& s.commands@ == old(frame).commands@
                    &&& final(frame).commands@.len() == 0
                },
                Err(e) => {
                    &&& e == FrameError::AlreadyFinished
                    &&& final(frame).commands@ == old(frame).commands@
                },
            },
    {
        frame.finish()
    }

    /// Keeps the handle of a submitted frame's work in the history.
    pub fn keep_submission(&mut self, submitted: F)
        ensures
            final(self).history() == old(self).history().push(submitted),
            final(self).pending_copies() == old(self).pending_copies(),
            final(self).spec_size() == old(self).spec_size(),
    {
        self.submissions.push(submitted);
    }

    /// The size of the target in pixels, width then height.
    pub fn size(&self) -> (r: (u32, u32))
        ensures
            r == self.spec_size(),
    {
        (self.width, self.height)
    }

    /// The handles of submitted frames still kept, oldest first.
    pub fn submissions(&self) -> (r: &Vec<F>)
        ensures
            r@ == self.history(),
    {
        &self.submissions
    }

    /// The uploads waiting for the next frame, in the order they were queued.
    pub fn queued_texture_copies(&self) -> (r: &Vec<U>)
        ensures
            r@ == self.pending_copies(),
    {
        &self.queued_texture_copies
    }
}

/// Every upload queued before a frame starts is copied in that frame, and every copy comes
/// before every command of the frame's geometry pass.
pub proof fn lemma_uploads_precede_geometry<U>(queued: Seq<U>, world: Seq<Option<Relation>>)
    requires
        world.len() <= usize::MAX,
    ensures
        ({
            let commands = upload_commands(queued) + geometry_pass::<U>(world);
            &&& forall|j: int|
                0 <= j < queued.len() ==> #[trigger] commands[queued.len() - 1 - j]
                    == FrameCommand::CopyBufferToImage(queued[j])
            &&& forall|a: int, b: int|
                0 <= a < commands.len() && 0 <= b < commands.len() && (#[trigger] commands[a]).is_upload()
                    && !(#[trigger] commands[b]).is_upload() ==> a < b
        }),
{
    lemma_entity_draws_are_drawn::<U>(world);
    let uploads = upload_commands(queued);
    let pass = geometry_pass::<U>(world);
    let commands = uploads + pass;
    assert forall|k: int| 0 <= k < pass.len() implies !(#[trigger] pass[k]).is_upload() by {
        if 0 < k < pass.len() - 1 {
            assert(pass[k] == crate::geometry::entity_draws::<U>(world)[k - 1]);
        }
    }
    assert forall|a: int, b: int|
        0 <= a < commands.len() && 0 <= b < commands.len() && (#[trigger] commands[a]).is_upload()
            && !(#[trigger] commands[b]).is_upload() implies a < b by {
        if a >= uploads.len() {
            assert(commands[a] == pass[a - uploads.len()]);
        }
    }
}

} // verus!
