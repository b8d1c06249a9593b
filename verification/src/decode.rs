use vstd::prelude::*;

use crate::json::{rep, lookup, get_field, JsonVal, JsonRep};
use crate::types::{Site, SiteRep, Note, NoteRep};

verus! {

/// The site record a document holds: an object whose `id` is a signed 32-bit
/// integer and whose `name` and `site_path` are strings.
pub open spec fn site_of_rep(j: JsonRep) -> Option<SiteRep> {
    match j {
        JsonRep::Object(fs) => {
            match (lookup(fs, "id"@), lookup(fs, "name"@), lookup(fs, "site_path"@)) {
                (Some(JsonRep::Int(i)), Some(JsonRep::Text(n)), Some(JsonRep::Text(p))) => {
                    if i32::MIN <= i && i <= i32::MAX {
                        Some(SiteRep { id: i, name: n, site_path: p })
                    } else {
                        None
                    }
                },
                _ => None,
            }
        },
        _ => None,
    }
}

/// The note record a document holds: an object whose `id` is a signed 32-bit
/// integer and whose `title`, `body` and `visibility` are strings.
pub open spec fn note_of_rep(j: JsonRep) -> Option<NoteRep> {
    match j {
        JsonRep::Object(fs) => {
            match (
                lookup(fs, "id"@),
                lookup(fs, "title"@),
                lookup(fs, "body"@),
                lookup(fs, "visibility"@),
            ) {
                (
                    Some(JsonRep::Int(i)),
                    Some(JsonRep::Text(t)),
                    Some(JsonRep::Text(b)),
                    Some(JsonRep::Text(v)),
                ) => {
                    if i32::MIN <= i && i <= i32::MAX {
                        Some(NoteRep { id: i, title: t, body: b, visibility: v })
                    } else {
                        None
                    }
                },
                _ => None,
            }
        },
        _ => None,
    }
}

/// The sequence of site records a document holds: a list of site objects.
pub open spec fn sites_of_rep(j: JsonRep) -> Option<Seq<SiteRep>> {
    match j {
        JsonRep::List(items) => {
            if forall|i: int| 0 <= i < items.len() ==> site_of_rep(#[trigger] items[i]) is Some {
                Some(Seq::new(items.len(), |i: int| site_of_rep(items[i])->Some_0))
            } else {
                None
            }
        },
        _ => None,
    }
}

/// The sequence of note records a document holds: a list of note objects.
pub open spec fn notes_of_rep(j: JsonRep) -> Option<Seq<NoteRep>> {
    match j {
        JsonRep::List(items) => {
            if forall|i: int| 0 <= i < items.len() ==> note_of_rep(#[trigger] items[i]) is Some {
                Some(Seq::new(items.len(), |i: int| note_of_rep(items[i])->Some_0))
            } else {
                None
            }
        },
        _ => None,
    }
}

/// The sequence of link texts a document holds: a list of strings.
pub open spec fn links_of_rep(j: JsonRep) -> Option<Seq<Seq<char>>> {
    match j {
        JsonRep::List(items) => {
            if forall|i: int| 0 <= i < items.len() ==> #[trigger] items[i] is Text {
                Some(Seq::new(items.len(), |i: int| items[i]->Text_0))
            } else {
                None
            }
        },
        _ => None,
    }
}

/// Reads one site record out of a document.
pub fn site_from_json(j: &JsonVal) -> (r: Option<Site>)
    ensures
        r is Some <==> site_of_rep(rep(*j)) is Some,
        r is Some ==> r->0@ == site_of_rep(rep(*j))->Some_0,
{
    match j {
        JsonVal::Object(fields) => {
            proof {
                let reps = Seq::new(
                    fields@.len(),
                    |i: int| (fields@[i].0@, rep(fields@[i].1)),
                );
                assert(rep(*j)->Object_0 =~= reps);
            }
            let id_field = get_field(fields, "id");
            let name_field = get_field(fields, "name");
            let path_field = get_field(fields, "site_path");
            match (id_field, name_field, path_field) {
                (Some(JsonVal::Int(id)), Some(JsonVal::Text(name)), Some(JsonVal::Text(path))) => {
                    if i32::MIN as i64 <= *id && *id <= i32::MAX as i64 {
                        Some(Site { id: *id as i32, name: name.clone(), site_path: path.clone() })
                    } else {
                        None
                    }
                },
                _ => None,
            }
        },
        _ => None,
    }
}

/// Reads one note record out of a document.
pub fn note_from_json(j: &JsonVal) -> (r: Option<Note>)
    ensures
        r is Some <==> note_of_rep(rep(*j)) is Some,
        r is Some ==> r->0@ == note_of_rep(rep(*j))->Some_0,
{
    match j {
        JsonVal::Object(fields) => {
            proof {
                let reps = Seq::new(
                    fields@.len(),
                    |i: int| (fields@[i].0@, rep(fields@[i].1)),
                );
                assert(rep(*j)->Object_0 =~= reps);
            }
            let id_field = get_field(fields, "id");
            let title_field = get_field(fields, "title");
            let body_field = get_field(fields, "body");
            let vis_field = get_field(fields, "visibility");
            match (id_field, title_field, body_field, vis_field) {
                (
                    Some(JsonVal::Int(id)),
                    Some(JsonVal::Text(title)),
                    Some(JsonVal::Text(body)),
                    Some(JsonVal::Text(vis)),
                ) => {
                    if i32::MIN as i64 <= *id && *id <= i32::MAX as i64 {
                        Some(
                            Note {
                                id: *id as i32,
                                title: title.clone(),
                                body: body.clone(),
                                visibility: vis.clone(),
                            },
                        )
                    } else {
                        None
                    }
                },
                _ => None,
            }
        },
        _ => None,
    }
}

/// Reads a list of site records out of a document.
pub fn sites_from_json(j: &JsonVal) -> (r: Option<Vec<Site>>)
    ensures
        r is Some <==> sites_of_rep(rep(*j)) is Some,
        r is Some ==> r->0@.map_values(|s: Site| s@) == sites_of_rep(rep(*j))->Some_0,
{
    match j {
        JsonVal::List(items) => {
            let ghost irep = rep(*j)->List_0;
            let mut out: Vec<Site> = Vec::new();
            let mut i: usize = 0;
            while i < items.len()
                invariant
                    i <= items@.len(),
                    rep(*j) == JsonRep::List(irep),
                    irep.len() == items@.len(),
                    forall|k: int| 0 <= k < items@.len() ==> irep[k] == rep(items@[k]),
                    out@.len() == i,
                    forall|k: int| 0 <= k < i ==> site_of_rep(#[trigger] irep[k]) is Some,
                    forall|k: int| 0 <= k < i ==> #[trigger] out@[k]@ == site_of_rep(irep[k])->Some_0,
                decreases items@.len() - i,
            {
                match site_from_json(&items[i]) {
                    Some(s) => {
                        out.push(s);
                        i += 1;
                    },
                    None => {
                        proof {
                            assert(site_of_rep(irep[i as int]) is None);
                        }
                        return None;
                    },
                }
            }
            proof {
                assert(sites_of_rep(rep(*j)) is Some);
                assert(out@.map_values(|s: Site| s@) =~= sites_of_rep(rep(*j))->Some_0);
            }
            Some(out)
        },
        _ => None,
    }
}

/// Reads a list of note records out of a document.
pub fn notes_from_json(j: &JsonVal) -> (r: Option<Vec<Note>>)
    ensures
        r is Some <==> notes_of_rep(rep(*j)) is Some,
        r is Some ==> r->0@.map_values(|n: Note| n@) == notes_of_rep(rep(*j))->Some_0,
{
    match j {
        JsonVal::List(items) => {
            let ghost irep = rep(*j)->List_0;
            let mut out: Vec<Note> = Vec::new();
            let mut i: usize = 0;
            while i < items.len()
                invariant
                    i <= items@.len(),
                    rep(*j) == JsonRep::List(irep),
                    irep.len() == items@.len(),
                    forall|k: int| 0 <= k < items@.len() ==> irep[k] == rep(items@[k]),
                    out@.len() == i,
                    forall|k: int| 0 <= k < i ==> note_of_rep(#[trigger] irep[k]) is Some,
                    forall|k: int| 0 <= k < i ==> #[trigger] out@[k]@ == note_of_rep(irep[k])->Some_0,
                decreases items@.len() - i,
            {
                match note_from_json(&items[i]) {
                    Some(n) => {
                        out.push(n);
                        i += 1;
                    },
                    None => {
                        proof {
                            assert(note_of_rep(irep[i as int]) is None);
                        }
                        return None;
                    },
                }
            }
            proof {
                assert(notes_of_rep(rep(*j)) is Some);
                assert(out@.map_values(|n: Note| n@) =~= notes_of_rep(rep(*j))->Some_0);
            }
            Some(out)
        },
        _ => None,
    }
}

/// Reads a list of link texts out of a document.
pub fn links_from_json(j: &JsonVal) -> (r: Option<Vec<String>>)
    ensures
        r is Some <==> links_of_rep(rep(*j)) is Some,
        r is Some ==> r->0@.map_values(|s: String| s@) == links_of_rep(rep(*j))->Some_0,
{
    match j {
        JsonVal::List(items) => {
            let ghost irep = rep(*j)->List_0;
            let mut out: Vec<String> = Vec::new();
            let mut i: usize = 0;
            while i < items.len()
                invariant
                    i <= items@.len(),
                    rep(*j) == JsonRep::List(irep),
                    irep.len() == items@.len(),
                    forall|k: int| 0 <= k < items@.len() ==> irep[k] == rep(items@[k]),
                    out@.len() == i,
                    forall|k: int| 0 <= k < i ==> #[trigger] irep[k] is Text,
                    forall|k: int| 0 <= k < i ==> #[trigger] out@[k]@ == irep[k]->Text_0,
                decreases items@.len() - i,
            {
                match &items[i] {
                    JsonVal::Text(s) => {
                        out.push(s.clone());
                        i += 1;
                    },
                    _ => {
                        proof {
                            assert(!(irep[i as int] is Text));
                        }
                        return None;
                    },
                }
            }
            proof {
                assert(links_of_rep(rep(*j)) is Some);
                assert(out@.map_values(|s: String| s@) =~= links_of_rep(rep(*j))->Some_0);
            }
            Some(out)
        },
        _ => None,
    }
}

} // verus!
