//! The catalogue of tag fields: fifteen well-known names and an open case for
//! every other name.

use vstd::prelude::*;
use vstd::string::*;
use crate::text::{all_ascii, ascii_upper, strs, to_chars, to_upper, uppercase_of};

verus! {

/// A tag field of a Vorbis comment block. A field is known by its canonical
/// name, the field's name in capitals; `Other` holds the canonical name of a
/// field outside the catalogue.
///
/// The fields that [`FlacTags::from_str`] gives keep the invariant
/// [`well_formed`]: the name in `Other` holds no colon and is no name of the
/// catalogue, so that two fields are equal exactly when their names are. A
/// value written by hand can break it (`Other("TITLE")`, `Other("a:b")`);
/// [`FlacTags::is_well_formed`] tells. Every function of the library takes
/// such a value as what it is: an `Other` field with the name it holds.
#[derive(Hash, Debug, Clone, Ord, PartialEq, PartialOrd, Eq)]
pub enum FlacTags {
    Title,
    Version,
    Album,
    Tracknumber,
    Artist,
    Performer,
    Copyright,
    License,
    Organization,
    Description,
    Genre,
    Date,
    Location,
    Contact,
    Isrc,
    Other(String),
}

/// The mathematical value of a tag field.
pub enum TagView {
    Title,
    Version,
    Album,
    Tracknumber,
    Artist,
    Performer,
    Copyright,
    License,
    Organization,
    Description,
    Genre,
    Date,
    Location,
    Contact,
    Isrc,
    Other(Seq<char>),
}

impl View for FlacTags {
    type V = TagView;

    open spec fn view(&self) -> TagView {
        match self {
            FlacTags::Title => TagView::Title,
            FlacTags::Version => TagView::Version,
            FlacTags::Album => TagView::Album,
            FlacTags::Tracknumber => TagView::Tracknumber,
            FlacTags::Artist => TagView::Artist,
            FlacTags::Performer => TagView::Performer,
            FlacTags::Copyright => TagView::Copyright,
            FlacTags::License => TagView::License,
            FlacTags::Organization => TagView::Organization,
            FlacTags::Description => TagView::Description,
            FlacTags::Genre => TagView::Genre,
            FlacTags::Date => TagView::Date,
            FlacTags::Location => TagView::Location,
            FlacTags::Contact => TagView::Contact,
            FlacTags::Isrc => TagView::Isrc,
            FlacTags::Other(name) => TagView::Other(name@),
        }
    }
}

/// The canonical name of a field.
pub open spec fn tag_name(t: TagView) -> Seq<char> {
    match t {
        TagView::Title => "TITLE"@,
        TagView::Version => "VERSION"@,
        TagView::Album => "ALBUM"@,
        TagView::Tracknumber => "TRACKNUMBER"@,
        TagView::Artist => "ARTIST"@,
        TagView::Performer => "PERFORMER"@,
        TagView::Copyright => "COPYRIGHT"@,
        TagView::License => "LICENSE"@,
        TagView::Organization => "ORGANIZATION"@,
        TagView::Description => "DESCRIPTION"@,
        TagView::Genre => "GENRE"@,
        TagView::Date => "DATE"@,
        TagView::Location => "LOCATION"@,
        TagView::Contact => "CONTACT"@,
        TagView::Isrc => "ISRC"@,
        TagView::Other(name) => name,
    }
}

/// The catalogue field with the given canonical name, if there is one.
pub open spec fn known_tag(name: Seq<char>) -> Option<TagView> {
    if name == "TITLE"@ {
        Some(TagView::Title)
    } else if name == "VERSION"@ {
        Some(TagView::Version)
    } else if name == "ALBUM"@ {
        Some(TagView::Album)
    } else if name == "TRACKNUMBER"@ {
        Some(TagView::Tracknumber)
    } else if name == "ARTIST"@ {
        Some(TagView::Artist)
    } else if name == "PERFORMER"@ {
        Some(TagView::Performer)
    } else if name == "COPYRIGHT"@ {
        Some(TagView::Copyright)
    } else if name == "LICENSE"@ {
        Some(TagView::License)
    } else if name == "ORGANIZATION"@ {
        Some(TagView::Organization)
    } else if name == "DESCRIPTION"@ {
        Some(TagView::Description)
    } else if name == "GENRE"@ {
        Some(TagView::Genre)
    } else if name == "DATE"@ {
        Some(TagView::Date)
    } else if name == "LOCATION"@ {
        Some(TagView::Location)
    } else if name == "CONTACT"@ {
        Some(TagView::Contact)
    } else if name == "ISRC"@ {
        Some(TagView::Isrc)
    } else {
        None
    }
}

/// The place of a field in the catalogue; every `Other` field comes after
/// the catalogue.
pub open spec fn catalogue_rank(t: TagView) -> int {
    match t {
        TagView::Title => 0,
        TagView::Version => 1,
        TagView::Album => 2,
        TagView::Tracknumber => 3,
        TagView::Artist => 4,
        TagView::Performer => 5,
        TagView::Copyright => 6,
        TagView::License => 7,
        TagView::Organization => 8,
        TagView::Description => 9,
        TagView::Genre => 10,
        TagView::Date => 11,
        TagView::Location => 12,
        TagView::Contact => 13,
        TagView::Isrc => 14,
        TagView::Other(_) => 15,
    }
}

/// The edits stand in the order of the catalogue, so no field has two.
pub open spec fn in_catalogue_order(s: Seq<(TagView, Seq<Seq<char>>)>) -> bool {
    forall|i: int, j: int|
        0 <= i < j < s.len() ==> catalogue_rank(#[trigger] s[i].0) < catalogue_rank(
            #[trigger] s[j].0,
        )
}

/// Every edit is for a field that stands before the given place.
pub open spec fn all_before(s: Seq<(TagView, Seq<Seq<char>>)>, rank: int) -> bool {
    forall|i: int| 0 <= i < s.len() ==> catalogue_rank(#[trigger] s[i].0) < rank
}

/// The invariant of a field: `Other` holds a name without a colon that names
/// no field of the catalogue.
pub open spec fn well_formed(t: TagView) -> bool {
    t matches TagView::Other(name) ==> !name.contains(':') && known_tag(name) is None
}

/// The message for a name that holds the reserved character `:`.
pub open spec fn illegal_name_message(upper: Seq<char>) -> Seq<char> {
    "Attempted to use tag `"@ + upper + "` that contained illegal character `:`"@
}

/// The field that a canonical name stands for: an error for a name with a
/// colon in it, the catalogue field of that name, or else `Other`.
pub open spec fn tag_of_canonical(upper: Seq<char>) -> Result<TagView, Seq<char>> {
    if upper.contains(':') {
        Err(illegal_name_message(upper))
    } else {
        match known_tag(upper) {
            Some(t) => Ok(t),
            None => Ok(TagView::Other(upper)),
        }
    }
}

/// The capitals of a field's name: by the ASCII rule where the name is
/// ASCII, as every name that the query grammar admits is.
pub open spec fn canonical_of(text: Seq<char>) -> Seq<char> {
    if all_ascii(text) {
        ascii_upper(text)
    } else {
        uppercase_of(text)
    }
}

/// Whether a name, whatever its case, names a field of the catalogue.
pub open spec fn is_standard_name(name: Seq<char>) -> bool {
    match tag_of_canonical(canonical_of(name)) {
        Ok(t) => !(t is Other),
        Err(_) => false,
    }
}

/// What a lookup of a field by name gives, on views.
pub open spec fn tag_result_view(r: Result<FlacTags, String>) -> Result<TagView, Seq<char>> {
    match r {
        Ok(t) => Ok(t@),
        Err(e) => Err(e@),
    }
}

/// Whether two strings hold the same text.
pub fn same_text(a: &str, b: &str) -> (r: bool)
    ensures
        r == (a@ == b@),
{
    let x = String::from_str(a);
    let y = String::from_str(b);
    x == y
}

/// Whether a character occurs in a text.
pub fn has_char(chars: &Vec<char>, c: char) -> (r: bool)
    ensures
        r == chars@.contains(c),
{
    let mut i: usize = 0;
    while i < chars.len()
        invariant
            i <= chars.len(),
            forall|j: int| 0 <= j < i ==> chars@[j] != c,
        decreases chars.len() - i,
    {
        if chars[i] == c {
            return true;
        }
        i += 1;
    }
    false
}

impl FlacTags {
    /// The canonical name of the field.
    pub fn as_str(&self) -> (r: &str)
        ensures
            r@ == tag_name(self@),
    {
        match self {
            FlacTags::Title => "TITLE",
            FlacTags::Version => "VERSION",
            FlacTags::Album => "ALBUM",
            FlacTags::Tracknumber => "TRACKNUMBER",
            FlacTags::Artist => "ARTIST",
            FlacTags::Performer => "PERFORMER",
            FlacTags::Copyright => "COPYRIGHT",
            FlacTags::License => "LICENSE",
            FlacTags::Organization => "ORGANIZATION",
            FlacTags::Description => "DESCRIPTION",
            FlacTags::Genre => "GENRE",
            FlacTags::Date => "DATE",
            FlacTags::Location => "LOCATION",
            FlacTags::Contact => "CONTACT",
            FlacTags::Isrc => "ISRC",
            FlacTags::Other(name) => name.as_str(),
        }
    }

    /// Whether the field belongs to the catalogue of well-known fields.
    pub fn is_standard(&self) -> (r: bool)
        ensures
            r == !(self@ is Other),
    {
        match self {
            FlacTags::Other(_) => false,
            _ => true,
        }
    }

    /// Whether the field keeps the invariant of fields.
    pub fn is_well_formed(&self) -> (r: bool)
        ensures
            r == well_formed(self@),
    {
        match self {
            FlacTags::Other(name) => {
                let chars = to_chars(name.as_str());
                !has_char(&chars, ':') && FlacTags::known(name.as_str()).is_none()
            },
            _ => true,
        }
    }

    /// The catalogue field with the given canonical name.
    pub fn known(upper: &str) -> (r: Option<FlacTags>)
        ensures
            match r {
                Some(t) => known_tag(upper@) == Some(t@),
                None => known_tag(upper@) is None,
            },
    {
        if same_text(upper, "TITLE") {
            Some(FlacTags::Title)
        } else if same_text(upper, "VERSION") {
            Some(FlacTags::Version)
        } else if same_text(upper, "ALBUM") {
            Some(FlacTags::Album)
        } else if same_text(upper, "TRACKNUMBER") {
            Some(FlacTags::Tracknumber)
        } else if same_text(upper, "ARTIST") {
            Some(FlacTags::Artist)
        } else if same_text(upper, "PERFORMER") {
            Some(FlacTags::Performer)
        } else if same_text(upper, "COPYRIGHT") {
            Some(FlacTags::Copyright)
        } else if same_text(upper, "LICENSE") {
            Some(FlacTags::License)
        } else if same_text(upper, "ORGANIZATION") {
            Some(FlacTags::Organization)
        } else if same_text(upper, "DESCRIPTION") {
            Some(FlacTags::Description)
        } else if same_text(upper, "GENRE") {
            Some(FlacTags::Genre)
        } else if same_text(upper, "DATE") {
            Some(FlacTags::Date)
        } else if same_text(upper, "LOCATION") {
            Some(FlacTags::Location)
        } else if same_text(upper, "CONTACT") {
            Some(FlacTags::Contact)
        } else if same_text(upper, "ISRC") {
            Some(FlacTags::Isrc)
        } else {
            None
        }
    }

    /// The field that a canonical name stands for.
    pub fn from_canonical(upper: String) -> (r: Result<FlacTags, String>)
        ensures
            tag_result_view(r) == tag_of_canonical(upper@),
            r matches Ok(t) ==> well_formed(t@),
    {
        let chars = to_chars(upper.as_str());
        if has_char(&chars, ':') {
            let mut msg = String::from_str("Attempted to use tag `");
            msg.append(upper.as_str());
            msg.append("` that contained illegal character `:`");
            return Err(msg);
        }
        match FlacTags::known(upper.as_str()) {
            Some(t) => Ok(t),
            None => Ok(FlacTags::Other(upper)),
        }
    }

    /// The field with the given name, whatever its case: the name is brought
    /// to capitals and looked up.
    pub fn from_str(s: &str) -> (r: Result<FlacTags, String>)
        ensures
            tag_result_view(r) == tag_of_canonical(uppercase_of(s@)),
            tag_result_view(r) == tag_of_canonical(canonical_of(s@)),
            r matches Ok(t) ==> well_formed(t@),
    {
        FlacTags::from_canonical(to_upper(s))
    }

    /// Whether a name, whatever its case, names a field of the catalogue.
    pub fn standard_name(name: &str) -> (r: bool)
        ensures
            r == is_standard_name(name@),
    {
        match FlacTags::from_str(name) {
            Ok(t) => t.is_standard(),
            Err(_) => false,
        }
    }
}

impl FlacTags {
    /// A copy of the field.
    pub fn duplicate(&self) -> (r: FlacTags)
        ensures
            r@ == self@,
    {
        match self {
            FlacTags::Other(name) => FlacTags::Other(name.clone()),
            FlacTags::Title => FlacTags::Title,
            FlacTags::Version => FlacTags::Version,
            FlacTags::Album => FlacTags::Album,
            FlacTags::Tracknumber => FlacTags::Tracknumber,
            FlacTags::Artist => FlacTags::Artist,
            FlacTags::Performer => FlacTags::Performer,
            FlacTags::Copyright => FlacTags::Copyright,
            FlacTags::License => FlacTags::License,
            FlacTags::Organization => FlacTags::Organization,
            FlacTags::Description => FlacTags::Description,
            FlacTags::Genre => FlacTags::Genre,
            FlacTags::Date => FlacTags::Date,
            FlacTags::Location => FlacTags::Location,
            FlacTags::Contact => FlacTags::Contact,
            FlacTags::Isrc => FlacTags::Isrc,
        }
    }
}

impl std::str::FromStr for FlacTags {
    type Err = String;

    /// The field with the given name, whatever its case.
    fn from_str(s: &str) -> (r: Result<FlacTags, String>)
        ensures
            tag_result_view(r) == tag_of_canonical(canonical_of(s@)),
    {
        FlacTags::from_str(s)
    }
}

/// The values given on the command line for each catalogue field.
#[derive(Debug, Hash, PartialEq, Eq, Clone)]
pub struct Fields {
    pub title: Option<Vec<String>>,
    pub version: Option<Vec<String>>,
    pub album: Option<Vec<String>>,
    pub tracknumber: Option<Vec<String>>,
    pub artist: Option<Vec<String>>,
    pub performer: Option<Vec<String>>,
    pub copyright: Option<Vec<String>>,
    pub license: Option<Vec<String>>,
    pub organization: Option<Vec<String>>,
    pub description: Option<Vec<String>>,
    pub genre: Option<Vec<String>>,
    pub date: Option<Vec<String>>,
    pub location: Option<Vec<String>>,
    pub contact: Option<Vec<String>>,
    pub isrc: Option<Vec<String>>,
}

/// One edit: a field and the values given for it.
pub type Task = (FlacTags, Vec<String>);

pub open spec fn task_view(t: Task) -> (TagView, Seq<Seq<char>>) {
    (t.0@, strs(t.1@))
}

pub open spec fn tasks_view(s: Seq<Task>) -> Seq<(TagView, Seq<Seq<char>>)> {
    Seq::new(s.len(), |i: int| task_view(s[i]))
}

/// The edit that a field's argument asks for: none where it was not given.
pub open spec fn task_of(t: TagView, field: Option<Vec<String>>) -> Seq<(TagView, Seq<Seq<char>>)> {
    match field {
        Some(v) => seq![(t, strs(v@))],
        None => seq![],
    }
}

/// The edits that the arguments ask for, in the catalogue's order.
pub open spec fn tasks_of(f: Fields) -> Seq<(TagView, Seq<Seq<char>>)> {
    task_of(TagView::Title, f.title)
        + task_of(TagView::Version, f.version)
        + task_of(TagView::Album, f.album)
        + task_of(TagView::Tracknumber, f.tracknumber)
        + task_of(TagView::Artist, f.artist)
        + task_of(TagView::Performer, f.performer)
        + task_of(TagView::Copyright, f.copyright)
        + task_of(TagView::License, f.license)
        + task_of(TagView::Organization, f.organization)
        + task_of(TagView::Description, f.description)
        + task_of(TagView::Genre, f.genre)
        + task_of(TagView::Date, f.date)
        + task_of(TagView::Location, f.location)
        + task_of(TagView::Contact, f.contact)
        + task_of(TagView::Isrc, f.isrc)
}

fn push_task(tasks: &mut Vec<Task>, tag: FlacTags, field: Option<Vec<String>>)
    requires
        in_catalogue_order(tasks_view(old(tasks)@)),
        all_before(tasks_view(old(tasks)@), catalogue_rank(tag@)),
    ensures
        tasks_view(final(tasks)@) == tasks_view(old(tasks)@) + task_of(tag@, field),
        in_catalogue_order(tasks_view(final(tasks)@)),
        all_before(tasks_view(final(tasks)@), catalogue_rank(tag@) + 1),
{
    match field {
        Some(v) => {
            tasks.push((tag, v));
            assert(tasks_view(tasks@) =~= tasks_view(old(tasks)@) + task_of(tag@, field));
        },
        None => {
            assert(tasks_view(tasks@) =~= tasks_view(old(tasks)@) + task_of(tag@, field));
        },
    }
}

impl FlacTags {
    /// The edits that the arguments ask for: one for each field that was
    /// given, in the catalogue's order, so no field occurs twice. The list
    /// stands for a map from fields to values that is walked in the order of
    /// its keys.
    pub fn from_args(f: Fields) -> (r: Vec<Task>)
        ensures
            tasks_view(r@) == tasks_of(f),
            in_catalogue_order(tasks_view(r@)),
            all_before(tasks_view(r@), 15),
    {
        let mut tasks: Vec<Task> = Vec::new();
        assert(tasks_view(tasks@) =~= Seq::empty());
        push_task(&mut tasks, FlacTags::Title, f.title);
        push_task(&mut tasks, FlacTags::Version, f.version);
        push_task(&mut tasks, FlacTags::Album, f.album);
        push_task(&mut tasks, FlacTags::Tracknumber, f.tracknumber);
        push_task(&mut tasks, FlacTags::Artist, f.artist);
        push_task(&mut tasks, FlacTags::Performer, f.performer);
        push_task(&mut tasks, FlacTags::Copyright, f.copyright);
        push_task(&mut tasks, FlacTags::License, f.license);
        push_task(&mut tasks, FlacTags::Organization, f.organization);
        push_task(&mut tasks, FlacTags::Description, f.description);
        push_task(&mut tasks, FlacTags::Genre, f.genre);
        push_task(&mut tasks, FlacTags::Date, f.date);
        push_task(&mut tasks, FlacTags::Location, f.location);
        push_task(&mut tasks, FlacTags::Contact, f.contact);
        push_task(&mut tasks, FlacTags::Isrc, f.isrc);
        tasks
    }
}

} // verus!
