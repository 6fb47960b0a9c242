//! Typed options and responses of the desktop file-chooser portal.
//!
//! The portal takes its dialog options as a dictionary and answers with
//! one: the chosen resource locations, any combo-box choices, and whether
//! the selection is writable.  Reading the answer tolerates unknown keys
//! and oddly shaped elements, but a `uris` or `choices` entry that is not
//! an array is a hard error, as the portal never sends one.

use vstd::prelude::*;

use crate::wire::{WireV, WireValue};

verus! {

broadcast use vstd::std_specs::vec::group_vec_axioms, vstd::seq::group_seq_axioms;

/// Options for the open-file dialog.
#[derive(Debug, Clone)]
pub struct OpenOptions {
    /// The label for the accept button.
    pub accept_label: Option<String>,
    /// Whether to make the dialog modal.
    pub modal: bool,
    /// Whether to allow selecting several files.
    pub multiple: bool,
    /// Whether to select folders instead of files.
    pub directory: bool,
    /// A suggested folder to open the files from.
    pub current_folder: Option<String>,
}

impl Default for OpenOptions {
    /// A modal single-file selection with no suggestions.
    fn default() -> (r: OpenOptions)
        ensures
            r.accept_label is None,
            r.modal == true,
            r.multiple == false,
            r.directory == false,
            r.current_folder is None,
    {
        OpenOptions {
            accept_label: None,
            modal: true,
            multiple: false,
            directory: false,
            current_folder: None,
        }
    }
}

impl OpenOptions {
    /// Sets the label for the accept button.
    pub fn accept_label(self, value: String) -> (r: OpenOptions)
        ensures
            r == (OpenOptions { accept_label: Some(value), ..self }),
    {
        OpenOptions { accept_label: Some(value), ..self }
    }

    /// Sets whether the dialog is modal.
    pub fn modal(self, value: bool) -> (r: OpenOptions)
        ensures
            r == (OpenOptions { modal: value, ..self }),
    {
        OpenOptions { modal: value, ..self }
    }

    /// Sets whether several files may be selected.
    pub fn multiple(self, value: bool) -> (r: OpenOptions)
        ensures
            r == (OpenOptions { multiple: value, ..self }),
    {
        OpenOptions { multiple: value, ..self }
    }

    /// Sets whether folders are selected instead of files.
    pub fn directory(self, value: bool) -> (r: OpenOptions)
        ensures
            r == (OpenOptions { directory: value, ..self }),
    {
        OpenOptions { directory: value, ..self }
    }

    /// Sets the suggested folder to open the files from.
    pub fn current_folder(self, value: String) -> (r: OpenOptions)
        ensures
            r == (OpenOptions { current_folder: Some(value), ..self }),
    {
        OpenOptions { current_folder: Some(value), ..self }
    }
}

/// Options for the save-file dialog.
#[derive(Debug, Clone)]
pub struct SaveOptions {
    /// The label for the accept button.
    pub accept_label: Option<String>,
    /// Whether to make the dialog modal.
    pub modal: bool,
    /// Whether to allow selecting several files.
    pub multiple: bool,
    /// A suggested file name.
    pub current_name: Option<String>,
    /// A suggested folder to save the file in.
    pub current_folder: Option<String>,
    /// The current file, when saving an existing one.
    pub current_file: Option<String>,
}

impl Default for SaveOptions {
    /// A modal single-file save with no suggestions.
    fn default() -> (r: SaveOptions)
        ensures
            r.accept_label is None,
            r.modal == true,
            r.multiple == false,
            r.current_name is None,
            r.current_folder is None,
            r.current_file is None,
    {
        SaveOptions {
            accept_label: None,
            modal: true,
            multiple: false,
            current_name: None,
            current_folder: None,
            current_file: None,
        }
    }
}

impl SaveOptions {
    /// Sets the label for the accept button.
    pub fn accept_label(self, value: String) -> (r: SaveOptions)
        ensures
            r == (SaveOptions { accept_label: Some(value), ..self }),
    {
        SaveOptions { accept_label: Some(value), ..self }
    }

    /// Sets whether the dialog is modal.
    pub fn modal(self, value: bool) -> (r: SaveOptions)
        ensures
            r == (SaveOptions { modal: value, ..self }),
    {
        SaveOptions { modal: value, ..self }
    }

    /// Sets whether several files may be selected.
    pub fn multiple(self, value: bool) -> (r: SaveOptions)
        ensures
            r == (SaveOptions { multiple: value, ..self }),
    {
        SaveOptions { multiple: value, ..self }
    }

    /// Sets the suggested file name.
    pub fn current_name(self, value: String) -> (r: SaveOptions)
        ensures
            r == (SaveOptions { current_name: Some(value), ..self }),
    {
        SaveOptions { current_name: Some(value), ..self }
    }

    /// Sets the suggested folder to save the file in.
    pub fn current_folder(self, value: String) -> (r: SaveOptions)
        ensures
            r == (SaveOptions { current_folder: Some(value), ..self }),
    {
        SaveOptions { current_folder: Some(value), ..self }
    }

    /// Sets the current file, when saving an existing one.
    pub fn current_file(self, value: String) -> (r: SaveOptions)
        ensures
            r == (SaveOptions { current_file: Some(value), ..self }),
    {
        SaveOptions { current_file: Some(value), ..self }
    }
}

/// The string elements of a `uris` array, in order, other shapes passed
/// over.
pub open spec fn uris_of(xs: Seq<WireV>) -> Seq<Seq<char>>
    decreases xs.len(),
{
    if xs.len() == 0 {
        Seq::empty()
    } else {
        uris_of(xs.drop_last()) + (match xs.last() {
            WireV::Str(s) => seq![s],
            _ => Seq::empty(),
        })
    }
}

/// The well-shaped pairs of a `choices` array, in order: structures
/// whose first two fields are strings, other shapes passed over.
pub open spec fn choices_of(xs: Seq<WireV>) -> Seq<(Seq<char>, Seq<char>)>
    decreases xs.len(),
{
    if xs.len() == 0 {
        Seq::empty()
    } else {
        choices_of(xs.drop_last()) + (match xs.last() {
            WireV::Structure(fs) => if fs.len() >= 2 && fs[1] is Str && fs[0] is Str {
                seq![(fs[0]->Str_0, fs[1]->Str_0)]
            } else {
                Seq::empty()
            },
            _ => Seq::empty(),
        })
    }
}

/// What reading a response dictionary yields, folding its entries in
/// order into the accumulated fields: `uris` and `choices` arrays extend
/// their lists, a `writable` boolean replaces the flag, a non-array
/// `uris` or `choices` entry is a hard error, and every other entry is
/// passed over.
pub open spec fn response_from(
    entries: Seq<(Seq<char>, WireV)>,
    uris: Seq<Seq<char>>,
    choices: Seq<(Seq<char>, Seq<char>)>,
    writable: bool,
) -> Result<(Seq<Seq<char>>, Seq<(Seq<char>, Seq<char>)>, bool), Seq<char>>
    decreases entries.len(),
{
    if entries.len() == 0 {
        Ok((uris, choices, writable))
    } else {
        let k = entries[0].0;
        let v = entries[0].1;
        if k == "choices"@ {
            match v {
                WireV::Array(xs) => response_from(
                    entries.drop_first(),
                    uris,
                    choices + choices_of(xs),
                    writable,
                ),
                _ => Err("choices property is not an array"@),
            }
        } else if k == "uris"@ {
            match v {
                WireV::Array(xs) => response_from(
                    entries.drop_first(),
                    uris + uris_of(xs),
                    choices,
                    writable,
                ),
                _ => Err("uris propert is not an array"@),
            }
        } else if k == "writable"@ {
            match v {
                WireV::Bool(b) => response_from(entries.drop_first(), uris, choices, b),
                _ => response_from(entries.drop_first(), uris, choices, writable),
            }
        } else {
            response_from(entries.drop_first(), uris, choices, writable)
        }
    }
}

/// A file-chooser answer: the chosen locations, the combo-box choices,
/// and whether the selection is writable.
#[derive(Debug)]
pub struct Response {
    pub uris: Vec<String>,
    pub choices: Vec<(String, String)>,
    pub writable: bool,
}

impl View for Response {
    type V = (Seq<Seq<char>>, Seq<(Seq<char>, Seq<char>)>, bool);

    open spec fn view(&self) -> (Seq<Seq<char>>, Seq<(Seq<char>, Seq<char>)>, bool) {
        (self.uris.deep_view(), self.choices.deep_view(), self.writable)
    }
}

impl Response {
    /// Reads a response dictionary, as [`response_from`] describes
    /// starting from empty fields.
    pub fn try_from(entries: &Vec<(String, WireValue)>) -> (r: Result<Response, String>)
        ensures
            match r {
                Ok(resp) => response_from(
                    entries.deep_view(),
                    Seq::empty(),
                    Seq::empty(),
                    false,
                ) == Ok::<(Seq<Seq<char>>, Seq<(Seq<char>, Seq<char>)>, bool), Seq<char>>(resp@),
                Err(m) => response_from(
                    entries.deep_view(),
                    Seq::empty(),
                    Seq::empty(),
                    false,
                ) == Err::<(Seq<Seq<char>>, Seq<(Seq<char>, Seq<char>)>, bool), Seq<char>>(m@),
            },
    {
        let ghost dv = entries.deep_view();
        let mut uris: Vec<String> = Vec::new();
        let mut choices: Vec<(String, String)> = Vec::new();
        let mut writable = false;
        let n = entries.len();
        let mut i: usize = 0;
        proof {
            assert(dv.skip(0) =~= dv);
            assert(uris.deep_view() =~= Seq::<Seq<char>>::empty());
            assert(choices.deep_view() =~= Seq::<(Seq<char>, Seq<char>)>::empty());
        }
        while i < n
            invariant
                0 <= i <= n,
                n == entries@.len(),
                dv == entries.deep_view(),
                dv.len() == n,
                forall|p: int| 0 <= p < n ==> #[trigger] dv[p] == (entries@[p].0@,
                    crate::wire::wire_view(entries@[p].1)),
                response_from(dv, Seq::empty(), Seq::empty(), false) == response_from(
                    dv.skip(i as int),
                    uris.deep_view(),
                    choices.deep_view(),
                    writable,
                ),
            decreases n - i,
        {
            proof {
                assert(dv.skip(i as int).drop_first() =~= dv.skip(i as int + 1));
                assert(dv.skip(i as int)[0] == dv[i as int]);
            }
            if crate::text::str_eq(entries[i].0.as_str(), "choices") {
                match &entries[i].1 {
                    WireValue::Array(xs) => {
                        proof {
                            crate::wire::lemma_wire_view_seq(xs@);
                        }
                        let ghost ws = crate::wire::wire_view_seq(xs@);
                        let m = xs.len();
                        let mut j: usize = 0;
                        proof {
                            assert(ws.take(0) =~= Seq::<WireV>::empty());
                            assert(choices.deep_view() + choices_of(ws.take(0))
                                =~= choices.deep_view());
                        }
                        let ghost base = choices.deep_view();
                        while j < m
                            invariant
                                0 <= j <= m,
                                m == xs@.len(),
                                ws == crate::wire::wire_view_seq(xs@),
                                ws.len() == m,
                                forall|q: int| 0 <= q < m ==> #[trigger] ws[q]
                                    == crate::wire::wire_view(xs@[q]),
                                choices.deep_view() =~= base + choices_of(ws.take(j as int)),
                            decreases m - j,
                        {
                            let ghost post = ws.take(j as int + 1);
                            proof {
                                assert(post.drop_last() =~= ws.take(j as int));
                                assert(post.last() == ws[j as int]);
                            }
                            match &xs[j] {
                                WireValue::Structure(fs) => {
                                    if fs.len() >= 2 {
                                        let second_ok = match &fs[1] {
                                            WireValue::Str(_) => true,
                                            _ => false,
                                        };
                                        let first_ok = match &fs[0] {
                                            WireValue::Str(_) => true,
                                            _ => false,
                                        };
                                        proof {
                                            crate::wire::lemma_wire_view_seq(fs@);
                                            assert(ws[j as int] == WireV::Structure(
                                                crate::wire::wire_view_seq(fs@),
                                            ));
                                        }
                                        if second_ok && first_ok {
                                            let first = match &fs[0] {
                                                WireValue::Str(s) => s.clone(),
                                                _ => vstd::pervasive::unreached(),
                                            };
                                            let second = match &fs[1] {
                                                WireValue::Str(s) => s.clone(),
                                                _ => vstd::pervasive::unreached(),
                                            };
                                            let ghost before = choices.deep_view();
                                            choices.push((first, second));
                                            proof {
                                                assert(choices.deep_view() =~= before.push(
                                                    (first@, second@),
                                                ));
                                            }
                                        }
                                    } else {
                                        proof {
                                            crate::wire::lemma_wire_view_seq(fs@);
                                            assert(ws[j as int] == WireV::Structure(
                                                crate::wire::wire_view_seq(fs@),
                                            ));
                                        }
                                    }
                                }
                                _ => {}
                            }
                            j = j + 1;
                        }
                        proof {
                            assert(ws.take(m as int) =~= ws);
                        }
                    }
                    _ => {
                        return Err("choices property is not an array".to_owned());
                    }
                }
            } else if crate::text::str_eq(entries[i].0.as_str(), "uris") {
                match &entries[i].1 {
                    WireValue::Array(xs) => {
                        proof {
                            crate::wire::lemma_wire_view_seq(xs@);
                        }
                        let ghost ws = crate::wire::wire_view_seq(xs@);
                        let m = xs.len();
                        let mut j: usize = 0;
                        proof {
                            assert(ws.take(0) =~= Seq::<WireV>::empty());
                            assert(uris.deep_view() + uris_of(ws.take(0)) =~= uris.deep_view());
                        }
                        let ghost base = uris.deep_view();
                        while j < m
                            invariant
                                0 <= j <= m,
                                m == xs@.len(),
                                ws == crate::wire::wire_view_seq(xs@),
                                ws.len() == m,
                                forall|q: int| 0 <= q < m ==> #[trigger] ws[q]
                                    == crate::wire::wire_view(xs@[q]),
                                uris.deep_view() =~= base + uris_of(ws.take(j as int)),
                            decreases m - j,
                        {
                            let ghost post = ws.take(j as int + 1);
                            proof {
                                assert(post.drop_last() =~= ws.take(j as int));
                                assert(post.last() == ws[j as int]);
                            }
                            match &xs[j] {
                                WireValue::Str(s) => {
                                    let ghost before = uris.deep_view();
                                    uris.push(s.clone());
                                    proof {
                                        assert(uris.deep_view() =~= before.push(s@));
                                    }
                                }
                                _ => {}
                            }
                            j = j + 1;
                        }
                        proof {
                            assert(ws.take(m as int) =~= ws);
                        }
                    }
                    _ => {
                        return Err("uris propert is not an array".to_owned());
                    }
                }
            } else if crate::text::str_eq(entries[i].0.as_str(), "writable") {
                match &entries[i].1 {
                    WireValue::Bool(b) => {
                        writable = *b;
                    }
                    _ => {}
                }
            }
            i = i + 1;
        }
        proof {
            assert(dv.skip(n as int) =~= Seq::<(Seq<char>, WireV)>::empty());
        }
        Ok(Response { uris, choices, writable })
    }
}

} // verus!
