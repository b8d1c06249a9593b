use vstd::prelude::*;

verus! {

/// A content collection of the remote service, as its responses describe it.
#[derive(Debug, PartialEq)]
pub struct Site {
    pub id: i32,
    pub name: String,
    pub site_path: String,
}

/// A single content item belonging to a site.
#[derive(Debug, PartialEq)]
pub struct Note {
    pub id: i32,
    pub title: String,
    pub body: String,
    pub visibility: String,
}

/// The mathematical shape of a site record.
pub struct SiteRep {
    pub id: int,
    pub name: Seq<char>,
    pub site_path: Seq<char>,
}

/// The mathematical shape of a note record.
pub struct NoteRep {
    pub id: int,
    pub title: Seq<char>,
    pub body: Seq<char>,
    pub visibility: Seq<char>,
}

impl View for Site {
    type V = SiteRep;

    open spec fn view(&self) -> SiteRep {
        SiteRep { id: self.id as int, name: self.name@, site_path: self.site_path@ }
    }
}

impl View for Note {
    type V = NoteRep;

    open spec fn view(&self) -> NoteRep {
        NoteRep {
            id: self.id as int,
            title: self.title@,
            body: self.body@,
            visibility: self.visibility@,
        }
    }
}

} // verus!
