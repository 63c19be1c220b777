//! Capturing the displayable texture: the layout of the copy into the
//! staging buffer, the job that goes to the encoder pool, and the rule by
//! which the pool takes a job or makes the caller wait.

use vstd::prelude::*;
use crate::params::ParamsView;
use crate::params::StaticParams;

verus! {

/// Layout of the copy from the texture into the staging buffer.
#[derive(Clone, Copy, Debug, PartialEq, Eq, Structural)]
pub struct CopyLayout {
    /// Offset of the first byte in the staging buffer.
    pub offset: u64,
    /// Bytes from the start of one row to the start of the next.
    pub bytes_per_row: u32,
    /// Rows of the image.
    pub rows_per_image: u32,
    /// Texels per row.
    pub width: u32,
    /// Size of the staging buffer in bytes.
    pub staging_bytes: u32,
}

/// The layout that `params` calls for: rows packed without padding, from
/// offset 0, in a buffer of exactly `width * height * BYTES_PER_PIXEL` bytes.
pub open spec fn layout_of(params: ParamsView) -> CopyLayout {
    CopyLayout {
        offset: 0,
        bytes_per_row: params.bytes_per_row() as u32,
        rows_per_image: params.height as u32,
        width: params.width as u32,
        staging_bytes: params.staging_bytes() as u32,
    }
}

/// The rows of a layout fill its staging buffer exactly.
pub proof fn lemma_layout_exact(params: ParamsView)
    requires
        params.fits(),
    ensures
        layout_of(params).bytes_per_row * layout_of(params).rows_per_image == layout_of(
            params,
        ).staging_bytes,
        layout_of(params).staging_bytes == params.staging_bytes(),
{
    lemma_sizes(params);
    assert(params.width * 4 * params.height == params.width * params.height * 4)
        by (nonlinear_arith);
}

/// Under `fits`, the staging buffer is no larger than the field.
proof fn lemma_sizes(params: ParamsView)
    requires
        params.fits(),
    ensures
        params.staging_bytes() <= params.field_bytes() <= u32::MAX,
        params.staging_bytes() == params.width * params.height * 4,
{
    assert(params.width * params.height * 4 <= params.width * params.height * 4 * 4)
        by (nonlinear_arith);
}

/// Computes the layout of the capture copy.
pub fn copy_layout(params: &StaticParams) -> (layout: CopyLayout)
    ensures
        layout == layout_of(params@),
{
    CopyLayout {
        offset: 0,
        bytes_per_row: params.bytes_per_row(),
        rows_per_image: params.height(),
        width: params.width(),
        staging_bytes: params.staging_bytes(),
    }
}

/// Why bytes read back from the staging buffer were not made into a job.
#[derive(Clone, Copy, Debug, PartialEq, Eq, Structural)]
pub enum CaptureError {
    /// The bytes are not one whole image.
    SizeMismatch { expected: u32, actual: usize },
}

/// One image on its way to the encoder: the texels, row by row, and the file
/// to write.
#[derive(Debug, PartialEq, Eq)]
pub struct CaptureJob {
    bytes: Vec<u8>,
    path: String,
    width: u32,
    height: u32,
}

/// Mathematical content of a [`CaptureJob`].
pub struct CaptureJobView {
    pub bytes: Seq<u8>,
    pub path: Seq<char>,
    pub width: nat,
    pub height: nat,
}

impl CaptureJobView {
    /// The bytes are exactly one image of the stated size.
    pub open spec fn wf(self) -> bool {
        self.bytes.len() == self.width * self.height * 4
    }
}

impl View for CaptureJob {
    type V = CaptureJobView;

    closed spec fn view(&self) -> CaptureJobView {
        CaptureJobView {
            bytes: self.bytes@,
            path: self.path@,
            width: self.width as nat,
            height: self.height as nat,
        }
    }
}

impl CaptureJob {
    /// Holds of every value of the type: the view is well formed.
    #[verifier::type_invariant]
    pub open spec fn inv(self) -> bool {
        self@.wf()
    }

    /// Makes the job for `bytes` read back from the staging buffer, to be
    /// written to `path`. Bytes that are not exactly one image are turned
    /// down.
    pub fn new(params: &StaticParams, bytes: Vec<u8>, path: String) -> (r: Result<
        CaptureJob,
        CaptureError,
    >)
        ensures
            match r {
                Ok(job) => {
                    &&& bytes@.len() == params@.staging_bytes()
                    &&& job@ == (CaptureJobView {
                        bytes: bytes@,
                        path: path@,
                        width: params@.width,
                        height: params@.height,
                    })
                    &&& job@.wf()
                },
                Err(e) => {
                    &&& bytes@.len() != params@.staging_bytes()
                    &&& e == (CaptureError::SizeMismatch {
                        expected: params@.staging_bytes() as u32,
                        actual: bytes@.len() as usize,
                    })
                },
            },
    {
        proof {
            use_type_invariant(params);
            lemma_sizes(params@);
        }
        let expected = params.staging_bytes();
        if bytes.len() != expected as usize {
            return Err(CaptureError::SizeMismatch { expected, actual: bytes.len() });
        }
        Ok(CaptureJob { bytes, path, width: params.width(), height: params.height() })
    }

    /// The texels.
    pub fn bytes(&self) -> (b: &Vec<u8>)
        ensures
            b@ == self@.bytes,
    {
        &self.bytes
    }

    /// The file to write.
    pub fn path(&self) -> (p: &str)
        ensures
            p@ == self@.path,
    {
        self.path.as_str()
    }

    /// Texels per row.
    pub fn width(&self) -> (w: u32)
        ensures
            w == self@.width,
    {
        self.width
    }

    /// Rows.
    pub fn height(&self) -> (h: u32)
        ensures
            h == self@.height,
    {
        self.height
    }
}

/// What the pool answers to a job that is offered.
#[derive(Clone, Copy, Debug, PartialEq, Eq, Structural)]
pub enum Admission {
    /// The job is taken now.
    HandOff,
    /// The queue is full: the caller waits for a slot and offers again. A job
    /// is never dropped.
    Wait,
}

/// The bounded queue's rule: a job is taken while fewer than `queue_bound`
/// jobs wait for a worker.
pub fn offer(queue_bound: usize, queued: usize) -> (a: Admission)
    ensures
        a == if queued < queue_bound {
            Admission::HandOff
        } else {
            Admission::Wait
        },
{
    if queued < queue_bound {
        Admission::HandOff
    } else {
        Admission::Wait
    }
}

} // verus!
