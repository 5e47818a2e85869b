use vstd::prelude::*;

verus! {

/// One step of the command sequence that a frame submits, in the order it is to execute.
#[derive(Clone, Debug, PartialEq, Eq)]
pub enum FrameCommand<U> {
    /// Copy a staging buffer into its destination image; `U` holds the pair.
    CopyBufferToImage(U),
    /// Begin the geometry render pass, clearing every attachment of the geometry buffer.
    BeginGeometryPass,
    /// Draw the entity held in the given slot of the world.
    DrawEntity(usize),
    /// End the geometry render pass.
    EndGeometryPass,
}

impl<U> FrameCommand<U> {
    pub open spec fn is_upload(self) -> bool {
        self is CopyBufferToImage
    }
}

/// Why a frame could not be finished.
#[derive(Clone, Copy, Debug, PartialEq, Eq, Structural)]
pub enum FrameError {
    /// The frame's in-flight handle was already taken by an earlier finish.
    AlreadyFinished,
}

/// A frame being built: the framebuffer of the acquired image, the image's index in the
/// swapchain, the handle of the work the frame will submit, and the commands recorded so far.
///
/// The handle is present from acquisition until the frame is finished, and is taken exactly
/// once.
pub struct Frame<B, F, U> {
    pub framebuffer: B,
    pub image_num: usize,
    pub future: Option<F>,
    pub commands: Vec<FrameCommand<U>>,
}

/// What finishing a frame hands over for presentation: the image to present, the in-flight
/// handle, and the commands to submit before presenting, in order.
pub struct FrameSubmission<F, U> {
    pub image_num: usize,
    pub future: F,
    pub commands: Vec<FrameCommand<U>>,
}

impl<B, F, U> Frame<B, F, U> {
    pub open spec fn spec_is_finished(&self) -> bool {
        self.future is None
    }

    /// Whether the frame's in-flight handle has been taken.
    pub fn is_finished(&self) -> (r: bool)
        ensures
            r == self.spec_is_finished(),
    {
        self.future.is_none()
    }

    /// Takes the in-flight handle and the recorded commands out of the frame. Fails, leaving the
    /// frame as it is, where the handle was already taken.
    pub fn finish(&mut self) -> (r: Result<FrameSubmission<F, U>, FrameError>)
        ensures
            r is Ok <==> !old(self).spec_is_finished(),
            final(self).spec_is_finished(),
            final(self).framebuffer == old(self).framebuffer,
            final(self).image_num == old(self).image_num,
            match r {
                Ok(s) => {
                    &&& old(self).future == Some(s.future)
                    &&& s.image_num == old(self).image_num
                    &&& s.commands@ == old(self).commands@
                    &&& final(self).commands@.len() == 0
                },
                Err(e) => {
                    &&& e == FrameError::AlreadyFinished
                    &&& final(self).commands@ == old(self).commands@
                },
            },
    {
        match self.future.take() {
            Some(future) => {
                let mut commands: Vec<FrameCommand<U>> = Vec::new();
                std::mem::swap(&mut commands, &mut self.commands);
                Ok(FrameSubmission { image_num: self.image_num, future, commands })
            },
            None => Err(FrameError::AlreadyFinished),
        }
    }
}

} // verus!
