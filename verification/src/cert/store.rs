//! Where the identity lies on disk, and in which steps it gets there.
//!
//! A file never appears half written: its content goes to a temporary file
//! beside it, and a rename puts that file in its place.

use crate::text::join2;
use crate::vault::pki::{CertBundle, CertBundleView};
use vstd::prelude::*;
use vstd::string::*;

verus! {

/// The path of the file `name` in the directory `dir`: the two with one
/// slash between them, unless `dir` is empty or already ends in one.
pub open spec fn path_in(dir: Seq<char>, name: Seq<char>) -> Seq<char> {
    if dir.len() == 0 {
        name
    } else if dir.last() == '/' {
        dir + name
    } else {
        dir + "/"@ + name
    }
}

/// The path of the temporary file that stands in for `target` while its
/// content is written.
pub open spec fn temporary_for(target: Seq<char>) -> Seq<char> {
    target + ".tmp"@
}

/// One operation on the file system.
#[derive(Debug, Clone)]
pub enum FileStep {
    /// Make sure that the directory exists, with all that lies above it.
    CreateDirAll { dir: String },
    /// Put the contents into the file, which is made or emptied for it.
    Write { path: String, contents: String },
    /// Give the file another name, replacing whatever has that name.
    Rename { from: String, to: String },
}

/// A [`FileStep`] as sequences of characters.
pub enum FileStepView {
    CreateDirAll { dir: Seq<char> },
    Write { path: Seq<char>, contents: Seq<char> },
    Rename { from: Seq<char>, to: Seq<char> },
}

impl View for FileStep {
    type V = FileStepView;

    open spec fn view(&self) -> FileStepView {
        match self {
            FileStep::CreateDirAll { dir } => FileStepView::CreateDirAll { dir: dir@ },
            FileStep::Write { path, contents } => FileStepView::Write {
                path: path@,
                contents: contents@,
            },
            FileStep::Rename { from, to } => FileStepView::Rename { from: from@, to: to@ },
        }
    }
}

/// All that puts one bundle on disk: the steps are carried out one after the
/// other, and the first that fails ends the attempt.
#[derive(Debug, Clone)]
pub struct WritePlan {
    /// The directory that the plan fills.
    pub dir: String,
    pub steps: Vec<FileStep>,
}

/// A [`WritePlan`] as sequences of characters.
pub struct WritePlanView {
    pub dir: Seq<char>,
    pub steps: Seq<FileStepView>,
}

impl View for WritePlan {
    type V = WritePlanView;

    open spec fn view(&self) -> WritePlanView {
        WritePlanView { dir: self.dir@, steps: self.steps@.map_values(|s: FileStep| s@) }
    }
}

/// The two steps that put `contents` into the file `name` of `dir`: the
/// contents go to the temporary file, which then takes the place of the file.
pub open spec fn atomic_write(dir: Seq<char>, name: Seq<char>, contents: Seq<char>) -> Seq<
    FileStepView,
> {
    seq![
        FileStepView::Write { path: temporary_for(path_in(dir, name)), contents },
        FileStepView::Rename { from: temporary_for(path_in(dir, name)), to: path_in(dir, name) },
    ]
}

/// The steps for a bundle: the directory, then certificate, key and issuer,
/// in that order.
pub open spec fn steps_for(dir: Seq<char>, bundle: CertBundleView) -> Seq<FileStepView> {
    seq![FileStepView::CreateDirAll { dir }] + atomic_write(dir, "tls.crt"@, bundle.certificate)
        + atomic_write(dir, "tls.key"@, bundle.private_key) + atomic_write(
        dir,
        "ca.crt"@,
        bundle.ca_certificate,
    )
}

/// Whether `path` is one of the three files that readers of `dir` look at.
pub open spec fn is_final_path(dir: Seq<char>, path: Seq<char>) -> bool {
    path == path_in(dir, "tls.crt"@) || path == path_in(dir, "tls.key"@) || path == path_in(
        dir,
        "ca.crt"@,
    )
}

/// The directory that holds the identity for other programs to read.
#[derive(Debug, Clone)]
pub struct CertStore {
    dir: String,
}

impl View for CertStore {
    type V = Seq<char>;

    /// The directory's path.
    closed spec fn view(&self) -> Seq<char> {
        self.dir@
    }
}

impl CertStore {
    /// The store in the directory `dir`.
    pub fn new(dir: &str) -> (store: CertStore)
        ensures
            store@ == dir@,
    {
        CertStore { dir: String::from_str(dir) }
    }

    fn file(&self, name: &str) -> (path: String)
        ensures
            path@ == path_in(self@, name@),
    {
        let dir = self.dir.as_str();
        let len: usize = dir.unicode_len();
        if len == 0 {
            String::from_str(name)
        } else if dir.get_char(len - 1) == '/' {
            join2(dir, name)
        } else {
            proof {
                reveal_strlit("/");
            }
            join2(dir, "/").concat(name)
        }
    }

    /// Where the certificate chain goes.
    pub fn cert_path(&self) -> (path: String)
        ensures
            path@ == path_in(self@, "tls.crt"@),
    {
        self.file("tls.crt")
    }

    /// Where the private key goes.
    pub fn key_path(&self) -> (path: String)
        ensures
            path@ == path_in(self@, "tls.key"@),
    {
        self.file("tls.key")
    }

    /// Where the issuer's certificate goes.
    pub fn ca_path(&self) -> (path: String)
        ensures
            path@ == path_in(self@, "ca.crt"@),
    {
        self.file("ca.crt")
    }

    fn add_atomic_write(&self, steps: &mut Vec<FileStep>, name: &str, contents: &String)
        ensures
            final(steps)@.map_values(|s: FileStep| s@) == old(steps)@.map_values(|s: FileStep| s@)
                + atomic_write(self@, name@, contents@),
    {
        let ghost before = steps@.map_values(|s: FileStep| s@);
        let target = self.file(name);
        let temporary = join2(target.as_str(), ".tmp");
        steps.push(FileStep::Write { path: temporary.clone(), contents: contents.clone() });
        steps.push(FileStep::Rename { from: temporary, to: target });
        assert(steps@.map_values(|s: FileStep| s@) =~= before + atomic_write(
            self@,
            name@,
            contents@,
        ));
    }

    /// The steps that put `bundle` on disk: the directory is made, then
    /// certificate, key and issuer are written, each by way of its temporary
    /// file.
    pub fn write(&self, bundle: &CertBundle) -> (plan: WritePlan)
        ensures
            plan@ == (WritePlanView { dir: self@, steps: steps_for(self@, bundle@) }),
    {
        let mut steps: Vec<FileStep> = Vec::new();
        steps.push(FileStep::CreateDirAll { dir: self.dir.clone() });
        assert(steps@.map_values(|s: FileStep| s@) =~= seq![
            FileStepView::CreateDirAll { dir: self@ },
        ]);
        self.add_atomic_write(&mut steps, "tls.crt", &bundle.certificate);
        self.add_atomic_write(&mut steps, "tls.key", &bundle.private_key);
        self.add_atomic_write(&mut steps, "ca.crt", &bundle.ca_certificate);
        WritePlan { dir: self.dir.clone(), steps }
    }
}

proof fn lemma_path_length(dir: Seq<char>, name: Seq<char>)
    ensures
        path_in(dir, name).len() - name.len() == path_in(dir, Seq::empty()).len(),
{
    reveal_strlit("/");
}

/// Atomic writes.  Nothing is ever written into one of the three files that
/// readers look at: every write goes to another file, and the step after it
/// renames that file into place.  So a reader finds each file whole, as the
/// last rename left it.
pub proof fn files_appear_only_whole(dir: Seq<char>, bundle: CertBundleView, i: int)
    requires
        0 <= i < steps_for(dir, bundle).len(),
    ensures
        steps_for(dir, bundle).len() == 7,
        steps_for(dir, bundle)[i] is Write ==> {
            &&& !is_final_path(dir, steps_for(dir, bundle)[i]->path)
            &&& i + 1 < 7
            &&& steps_for(dir, bundle)[i + 1] is Rename
            &&& steps_for(dir, bundle)[i + 1]->from == steps_for(dir, bundle)[i]->path
        },
        steps_for(dir, bundle)[i] is Rename ==> {
            &&& is_final_path(dir, steps_for(dir, bundle)[i]->to)
            &&& i > 0
            &&& steps_for(dir, bundle)[i - 1] is Write
            &&& steps_for(dir, bundle)[i - 1]->path == steps_for(dir, bundle)[i]->from
        },
{
    reveal_strlit("tls.crt");
    reveal_strlit("tls.key");
    reveal_strlit("ca.crt");
    reveal_strlit(".tmp");
    lemma_path_length(dir, "tls.crt"@);
    lemma_path_length(dir, "tls.key"@);
    lemma_path_length(dir, "ca.crt"@);
    let cert = path_in(dir, "tls.crt"@);
    let key = path_in(dir, "tls.key"@);
    let ca = path_in(dir, "ca.crt"@);
    assert(temporary_for(cert).len() == cert.len() + 4);
    assert(temporary_for(key).len() == key.len() + 4);
    assert(temporary_for(ca).len() == ca.len() + 4);
    assert(cert.len() == key.len());
    assert(cert.len() == ca.len() + 1);
}

} // verus!
