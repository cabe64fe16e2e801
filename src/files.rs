//! Names of the image files: the temporary file a capture writes, the name it
//! takes once its type is known, and the name it is exported under.
use vstd::prelude::*;
use crate::camera::ImageHandle;
use crate::text::{decimal, push_decimal};

verus! {

/// The file extension that the mime database gives for a mime type, if any.
pub uninterp spec fn mime_extension(mime: Seq<char>) -> Option<Seq<char>>;

/// Relies on `mime2ext::mime2ext`: it looks the mime type up in its database
/// and returns the extension found there, or `None`.
#[verifier::external_body]
fn extension_of_mime(mime: &str) -> (r: Option<&'static str>)
    ensures
        match r {
            Some(e) => mime_extension(mime@) == Some(e@),
            None => mime_extension(mime@) is None,
        },
{
    mime2ext::mime2ext(mime)
}

/// Relies on `uuid::Uuid::new_v4` and the text form of a `Uuid`: a fresh
/// random identifier, written in the hyphenated form of 36 characters.
#[verifier::external_body]
fn random_id() -> (r: String)
    ensures
        r@.len() == 36,
{
    uuid::Uuid::new_v4().to_string()
}

/// The name of the temporary file for a capture with identifier `id`.
pub open spec fn temp_name(id: Seq<char>) -> Seq<char> {
    "image_"@ + id
}

/// `stem`, with `.ext` added when an extension is given.
pub open spec fn with_extension(stem: Seq<char>, ext: Option<Seq<char>>) -> Seq<char> {
    match ext {
        Some(e) => stem + "."@ + e,
        None => stem,
    }
}

/// The name an image is exported under: `image_<seq>.jpg`.
pub open spec fn export_name(seq: u32) -> Seq<char> {
    "image_"@ + decimal(seq as nat) + ".jpg"@
}

/// The name of the temporary file for a capture with identifier `id`.
pub fn temp_image_name(id: &str) -> (r: String)
    ensures
        r@ == temp_name(id@),
{
    let mut s = String::from_str("image_");
    s.append(id);
    s
}

/// A fresh name for the temporary file of a capture, made from a random identifier.
pub fn generate_temp_image_name() -> (r: String)
    ensures
        exists|id: Seq<char>| id.len() == 36 && r@ == temp_name(id),
{
    let id = random_id();
    temp_image_name(id.as_str())
}

/// `stem`, with `.ext` added when an extension is given.
pub fn file_name_with_extension(stem: &str, ext: Option<&str>) -> (r: String)
    ensures
        r@ == with_extension(stem@, match ext {
            Some(e) => Some(e@),
            None => None,
        }),
{
    let mut s = String::from_str(stem);
    match ext {
        Some(e) => {
            s.append(".");
            s.append(e);
        },
        None => {},
    }
    s
}

/// The name a captured file takes once the camera has said its mime type: the
/// extension for that type added, or the name unchanged where none is known.
pub fn captured_file_name(stem: &str, mime: &str) -> (r: String)
    ensures
        r@ == with_extension(stem@, mime_extension(mime@)),
{
    let ext = extension_of_mime(mime);
    file_name_with_extension(stem, ext)
}

/// A request to copy an image into a chosen directory.
#[derive(Debug, Clone, PartialEq, Eq)]
pub struct ExportJob {
    pub image_path: String,
    pub seq: u32,
    pub output_directory: String,
}

impl ExportJob {
    /// The name of the copy in the output directory.
    pub fn destination_name(&self) -> (r: String)
        ensures
            r@ == export_name(self.seq),
    {
        let mut s = String::from_str("image_");
        push_decimal(&mut s, self.seq as u64);
        s.append(".jpg");
        s
    }
}

/// One export job per image, in order, into `output_directory`; none where
/// no directory was chosen.
pub fn export_jobs(images: &Vec<ImageHandle>, output_directory: &Option<String>) -> (r: Vec<ExportJob>)
    ensures
        match output_directory {
            None => r@.len() == 0,
            Some(dir) => {
                &&& r@.len() == images@.len()
                &&& forall|i: int|
                    0 <= i < r@.len() ==> {
                        &&& (#[trigger] r@[i]).image_path@ == images@[i].path@
                        &&& r@[i].seq == images@[i].seq
                        &&& r@[i].output_directory@ == dir@
                    }
            },
        },
{
    let mut jobs: Vec<ExportJob> = Vec::new();
    match output_directory {
        None => {},
        Some(dir) => {
            let mut i: usize = 0;
            while i < images.len()
                invariant
                    i <= images@.len(),
                    jobs@.len() == i,
                    forall|k: int|
                        0 <= k < i ==> {
                            &&& (#[trigger] jobs@[k]).image_path@ == images@[k].path@
                            &&& jobs@[k].seq == images@[k].seq
                            &&& jobs@[k].output_directory@ == dir@
                        },
                decreases images@.len() - i,
            {
                let job = ExportJob {
                    image_path: images[i].path.clone(),
                    seq: images[i].seq,
                    output_directory: dir.clone(),
                };
                jobs.push(job);
                i += 1;
            }
        },
    }
    jobs
}

/// The sequence number for a manual capture: one past the largest taken so
/// far, or zero where there is none.
pub fn next_seq(seqs: &Vec<u32>) -> (r: u32)
    requires
        forall|i: int| 0 <= i < seqs@.len() ==> seqs@[i] < u32::MAX,
    ensures
        seqs@.len() == 0 ==> r == 0,
        seqs@.len() > 0 ==> {
            &&& forall|i: int| 0 <= i < seqs@.len() ==> seqs@[i] < r
            &&& exists|i: int| 0 <= i < seqs@.len() && seqs@[i] + 1 == r
        },
{
    if seqs.len() == 0 {
        return 0;
    }
    let mut max: u32 = seqs[0];
    let mut at: usize = 0;
    let mut i: usize = 1;
    while i < seqs.len()
        invariant
            1 <= i <= seqs@.len(),
            at < i,
            seqs@[at as int] == max,
            forall|k: int| 0 <= k < i ==> seqs@[k] <= max,
        decreases seqs@.len() - i,
    {
        if seqs[i] > max {
            max = seqs[i];
            at = i;
        }
        i += 1;
    }
    assert(seqs@[at as int] + 1 == max + 1);
    max + 1
}

} // verus!
