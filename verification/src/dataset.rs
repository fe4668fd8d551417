//! Layout of a labelled dataset on disk: `<root>/<split>/<label>/<file>`.

use vstd::prelude::*;
use vstd::string::*;

verus! {

/// The part of the dataset that an image was set aside for.
#[derive(Clone, Copy, Debug, PartialEq, Eq, Structural)]
pub enum Split {
    Train,
    Test,
}

/// What an image is known to be.
#[derive(Clone, Copy, Debug, PartialEq, Eq, Structural)]
pub enum Label {
    Fake,
    Real,
}

/// One directory of the dataset: the images of one split with one label.
#[derive(Clone, Copy, Debug, PartialEq, Eq, Structural)]
pub struct Section {
    pub split: Split,
    pub label: Label,
}

impl Split {
    /// Name of the split's directory.
    pub open spec fn dir_name_view(self) -> Seq<char> {
        match self {
            Split::Train => "train"@,
            Split::Test => "test"@,
        }
    }

    /// The split as a report header shows it.
    pub open spec fn title_view(self) -> Seq<char> {
        match self {
            Split::Train => "TRAIN"@,
            Split::Test => "TEST"@,
        }
    }

    /// Name of the split's directory.
    pub fn dir_name(self) -> (name: &'static str)
        ensures
            name@ == self.dir_name_view(),
    {
        match self {
            Split::Train => "train",
            Split::Test => "test",
        }
    }

    /// The split as a report header shows it: its directory name in upper
    /// case.
    pub fn title(self) -> (title: &'static str)
        ensures
            title@ == self.title_view(),
    {
        match self {
            Split::Train => "TRAIN",
            Split::Test => "TEST",
        }
    }
}

impl Label {
    /// Name of the label's directory.
    pub open spec fn dir_name_view(self) -> Seq<char> {
        match self {
            Label::Fake => "fake"@,
            Label::Real => "real"@,
        }
    }

    /// The label as a report header shows it.
    pub open spec fn title_view(self) -> Seq<char> {
        match self {
            Label::Fake => "FAKE"@,
            Label::Real => "REAL"@,
        }
    }

    /// Name of the label's directory.
    pub fn dir_name(self) -> (name: &'static str)
        ensures
            name@ == self.dir_name_view(),
    {
        match self {
            Label::Fake => "fake",
            Label::Real => "real",
        }
    }

    /// The label as a report header shows it: its directory name in upper
    /// case.
    pub fn title(self) -> (title: &'static str)
        ensures
            title@ == self.title_view(),
    {
        match self {
            Label::Fake => "FAKE",
            Label::Real => "REAL",
        }
    }
}

/// The capital of a small Latin letter; any other character unchanged.
pub open spec fn upper_case(c: char) -> char {
    if 'a' as u32 <= c as u32 && c as u32 <= 'z' as u32 {
        ((c as u32 - 32) as u8) as char
    } else {
        c
    }
}

/// A header shows a split and a label by their directory names in upper
/// case.
pub proof fn lemma_titles_are_upper_case(section: Section)
    ensures
        section.split.title_view() == section.split.dir_name_view().map_values(
            |c: char| upper_case(c),
        ),
        section.label.title_view() == section.label.dir_name_view().map_values(
            |c: char| upper_case(c),
        ),
{
    reveal_strlit("train");
    reveal_strlit("test");
    reveal_strlit("fake");
    reveal_strlit("real");
    reveal_strlit("TRAIN");
    reveal_strlit("TEST");
    reveal_strlit("FAKE");
    reveal_strlit("REAL");
    assert(section.split.title_view() =~= section.split.dir_name_view().map_values(
        |c: char| upper_case(c),
    ));
    assert(section.label.title_view() =~= section.label.dir_name_view().map_values(
        |c: char| upper_case(c),
    ));
}

/// The sections of a dataset in the order in which a run reports them.
pub open spec fn section_order() -> Seq<Section> {
    seq![
        Section { split: Split::Train, label: Label::Fake },
        Section { split: Split::Train, label: Label::Real },
        Section { split: Split::Test, label: Label::Fake },
        Section { split: Split::Test, label: Label::Real },
    ]
}

/// The sections of a dataset in the order in which a run reports them:
/// the training images before the test images, fake before real.
pub fn sections() -> (all: Vec<Section>)
    ensures
        all@ == section_order(),
{
    let mut all: Vec<Section> = Vec::with_capacity(4);
    all.push(Section { split: Split::Train, label: Label::Fake });
    all.push(Section { split: Split::Train, label: Label::Real });
    all.push(Section { split: Split::Test, label: Label::Fake });
    all.push(Section { split: Split::Test, label: Label::Real });
    assert(all@ =~= section_order());
    all
}

impl Section {
    /// The section's directory below `root`.
    pub open spec fn directory_view(self, root: Seq<char>) -> Seq<char> {
        root + "/"@ + self.split.dir_name_view() + "/"@ + self.label.dir_name_view()
    }

    /// The line that opens the section's part of a report.
    pub open spec fn header_view(self) -> Seq<char> {
        "["@ + self.split.title_view() + " / "@ + self.label.title_view() + "]"@
    }

    /// The section's directory below `root`: `<root>/<split>/<label>`.
    pub fn directory(&self, root: &str) -> (path: String)
        ensures
            path@ == self.directory_view(root@),
    {
        let mut path = String::from_str(root);
        path.append("/");
        path.append(self.split.dir_name());
        path.append("/");
        path.append(self.label.dir_name());
        path
    }

    /// The line that opens the section's part of a report:
    /// `[<SPLIT> / <LABEL>]`.
    pub fn header(&self) -> (line: String)
        ensures
            line@ == self.header_view(),
    {
        let mut line = String::from_str("[");
        line.append(self.split.title());
        line.append(" / ");
        line.append(self.label.title());
        line.append("]");
        line
    }
}

/// The file extension, without its dot, of the images that a run scores.
pub open spec fn image_extension() -> Seq<char> {
    "jpg"@
}

/// Whether two texts are the same, character for character.
fn same_text(left: &str, right: &str) -> (same: bool)
    ensures
        same <==> left@ == right@,
{
    let a = left.as_bytes();
    let b = right.as_bytes();
    if a.len() != b.len() {
        return false;
    }
    let mut at: usize = 0;
    while at < a.len()
        invariant
            at <= a@.len(),
            a@.len() == b@.len(),
            a@ == left.spec_bytes(),
            b@ == right.spec_bytes(),
            forall|j: int| 0 <= j < at ==> a@[j] == b@[j],
        decreases a@.len() - at,
    {
        if a[at] != b[at] {
            return false;
        }
        at = at + 1;
    }
    proof {
        broadcast use vstd::utf8::encode_utf8_decode_utf8;
        assert(a@ =~= b@);
        assert(vstd::utf8::decode_utf8(left.spec_bytes()) == left@);
        assert(vstd::utf8::decode_utf8(right.spec_bytes()) == right@);
    }
    true
}

/// Whether a file with this extension, given without its dot, is scored.
/// Only `jpg` is, in exactly this spelling.
pub fn accepts_extension(extension: &str) -> (accepted: bool)
    ensures
        accepted <==> extension@ == image_extension(),
{
    same_text(extension, "jpg")
}

} // verus!
