//! Looking for a program in the directories of a search path.
//!
//! Whether a file exists is for the host to find out. A [`PathSearch`] names
//! the file to look for next, takes the answer, and concludes as soon as one
//! answer is yes or no file is left to ask about.

use crate::text::{split, split_str, text_of};
use vstd::prelude::*;
use vstd::string::*;

verus! {

/// The directories of a search path, in order. A path that is unset or
/// empty has none; otherwise colons separate them.
pub open spec fn search_dirs(path: Option<Seq<char>>) -> Seq<Seq<char>> {
    match path {
        Some(dirs) => if dirs.len() == 0 {
            Seq::empty()
        } else {
            split(dirs, ':')
        },
        None => Seq::empty(),
    }
}

/// The name of `program` inside `dir`.
pub open spec fn file_in(dir: Seq<char>, program: Seq<char>) -> Seq<char> {
    dir + "/"@ + program
}

/// The files that would be `program` in a directory of `path`, in the path's order.
pub open spec fn candidates(path: Option<Seq<char>>, program: Seq<char>) -> Seq<Seq<char>> {
    search_dirs(path).map_values(|dir: Seq<char>| file_in(dir, program))
}

/// `program` is a file of some directory of `path`, where `present` holds the files that exist.
pub open spec fn on_path(
    path: Option<Seq<char>>,
    program: Seq<char>,
    present: Set<Seq<char>>,
) -> bool {
    exists|i: int|
        0 <= i < search_dirs(path).len() && present.contains(
            file_in(#[trigger] search_dirs(path)[i], program),
        )
}

/// The mathematical content of a [`PathSearch`]: the files to ask about, how
/// many of them were asked about, and whether the last answer was yes.
pub ghost struct SearchView {
    pub files: Seq<Seq<char>>,
    pub asked: nat,
    pub found: bool,
}

impl SearchView {
    /// A search that has asked nothing yet.
    pub open spec fn start(files: Seq<Seq<char>>) -> SearchView {
        SearchView { files, asked: 0, found: false }
    }

    /// No more was asked than there are files, and a yes was an answer.
    pub open spec fn wf(self) -> bool {
        &&& self.asked <= self.files.len()
        &&& self.found ==> self.asked > 0
    }

    /// The file to ask about next, while the search is open.
    pub open spec fn pending(self) -> Option<Seq<char>> {
        if !self.found && self.asked < self.files.len() {
            Some(self.files[self.asked as int])
        } else {
            None
        }
    }

    /// What the search has concluded, once it is over.
    pub open spec fn verdict(self) -> Option<bool> {
        if self.found {
            Some(true)
        } else if self.asked >= self.files.len() {
            Some(false)
        } else {
            None
        }
    }

    /// The search after the answer to its pending question. A search that
    /// is over stays as it is.
    pub open spec fn answer(self, exists: bool) -> SearchView {
        if self.pending() is Some {
            SearchView { files: self.files, asked: self.asked + 1, found: exists }
        } else {
            self
        }
    }

    /// What the search concludes when every question is answered from `present`.
    pub open spec fn conclude(self, present: Set<Seq<char>>) -> bool
        decreases self.files.len() - self.asked,
    {
        match self.pending() {
            Some(file) => self.answer(present.contains(file)).conclude(present),
            None => self.found,
        }
    }
}

/// An open search that has had only noes concludes yes exactly when one of
/// the files it has not asked about yet exists.
pub proof fn lemma_conclude(search: SearchView, present: Set<Seq<char>>)
    requires
        search.wf(),
        !search.found,
    ensures
        search.conclude(present) <==> exists|i: int|
            search.asked <= i < search.files.len() && present.contains(#[trigger] search.files[i]),
    decreases search.files.len() - search.asked,
{
    if search.asked < search.files.len() {
        let file = search.files[search.asked as int];
        let next = search.answer(present.contains(file));
        if present.contains(file) {
            assert(next.pending() is None);
            assert(next.conclude(present));
        } else {
            lemma_conclude(next, present);
            if search.conclude(present) {
                let i = choose|i: int|
                    next.asked <= i < next.files.len() && present.contains(#[trigger] next.files[i]);
                assert(search.asked <= i < search.files.len() && present.contains(search.files[i]));
            }
            if exists|i: int|
                search.asked <= i < search.files.len() && present.contains(
                    #[trigger] search.files[i],
                ) {
                let i = choose|i: int|
                    search.asked <= i < search.files.len() && present.contains(
                        #[trigger] search.files[i],
                    );
                assert(next.asked <= i < next.files.len() && present.contains(next.files[i]));
            }
        }
    }
}

/// A search for `program` along `path`, answered from the files in
/// `present`, concludes yes exactly when some directory of `path` holds a
/// file of that name. Along a path that is unset or empty it concludes no.
pub proof fn lemma_in_path(path: Option<Seq<char>>, program: Seq<char>, present: Set<Seq<char>>)
    ensures
        SearchView::start(candidates(path, program)).conclude(present) <==> on_path(
            path,
            program,
            present,
        ),
        path is None || path->Some_0.len() == 0 ==> !SearchView::start(
            candidates(path, program),
        ).conclude(present),
{
    let search = SearchView::start(candidates(path, program));
    lemma_conclude(search, present);
    if search.conclude(present) {
        let i = choose|i: int|
            search.asked <= i < search.files.len() && present.contains(#[trigger] search.files[i]);
        assert(present.contains(file_in(search_dirs(path)[i], program)));
    }
    if on_path(path, program, present) {
        let i = choose|i: int|
            0 <= i < search_dirs(path).len() && present.contains(
                file_in(#[trigger] search_dirs(path)[i], program),
            );
        assert(present.contains(search.files[i]));
    }
}

/// A search for one program along a search path, question by question.
pub struct PathSearch {
    files: Vec<String>,
    asked: usize,
    found: bool,
}

impl View for PathSearch {
    type V = SearchView;

    closed spec fn view(&self) -> SearchView {
        SearchView { files: self.files.deep_view(), asked: self.asked as nat, found: self.found }
    }
}

/// The files that would be `program` in a directory of `path`, in the path's order.
pub fn candidate_files(program: &str, path: Option<&str>) -> (files: Vec<String>)
    ensures
        files.deep_view() == candidates(text_of(path), program@),
{
    let ghost path_view = text_of(path);
    let mut files: Vec<String> = Vec::new();
    match path {
        Some(dirs) => {
            if dirs.unicode_len() > 0 {
                let pieces = split_str(dirs, ':');
                let mut i: usize = 0;
                while i < pieces.len()
                    invariant
                        i <= pieces.len(),
                        pieces.deep_view() == search_dirs(path_view),
                        files.deep_view() == candidates(path_view, program@).take(i as int),
                    decreases pieces.len() - i,
                {
                    let mut file = pieces[i].clone();
                    file.append("/");
                    file.append(program);
                    let ghost before = files.deep_view();
                    files.push(file);
                    assert(files.deep_view() =~= before.push(
                        file_in(pieces.deep_view()[i as int], program@),
                    ));
                    assert(files.deep_view() =~= candidates(path_view, program@).take(i + 1));
                    i += 1;
                }
                assert(files.deep_view() =~= candidates(path_view, program@));
            } else {
                assert(files.deep_view() =~= candidates(path_view, program@));
            }
        },
        None => {
            assert(files.deep_view() =~= candidates(path_view, program@));
        },
    }
    files
}

/// Begins the search for `program` in the directories of `path`.
///
/// `path` is the value of the search path variable, `None` when it is unset.
/// The search asks about `program` in each directory in turn.
pub fn in_path(program: &str, path: Option<&str>) -> (search: PathSearch)
    ensures
        search@ == SearchView::start(candidates(text_of(path), program@)),
{
    PathSearch::over(candidate_files(program, path))
}

impl PathSearch {
    #[verifier::type_invariant]
    spec fn inv(self) -> bool {
        &&& self.asked <= self.files.len()
        &&& self.found ==> self.asked > 0
    }

    /// A search that asks about each of `files` in turn.
    pub fn over(files: Vec<String>) -> (search: PathSearch)
        ensures
            search@ == SearchView::start(files.deep_view()),
    {
        PathSearch { files, asked: 0, found: false }
    }

    /// How many files the search has asked about.
    pub fn asked(&self) -> (r: usize)
        ensures
            r == self@.asked,
            self@.wf(),
    {
        proof {
            use_type_invariant(self);
        }
        self.asked
    }

    /// The file whose existence the search needs to know next, or `None` when the search is over.
    pub fn wanted(&self) -> (r: Option<&str>)
        ensures
            self@.wf(),
            match r {
                Some(file) => self@.pending() == Some(file@),
                None => self@.pending() is None,
            },
    {
        proof {
            use_type_invariant(self);
        }
        if !self.found && self.asked < self.files.len() {
            Some(self.files[self.asked].as_str())
        } else {
            None
        }
    }

    /// Takes the answer to the pending question: whether the wanted file
    /// exists. A search that is over ignores it.
    pub fn answer(&mut self, exists: bool)
        ensures
            final(self)@ == old(self)@.answer(exists),
        no_unwind
    {
        proof {
            use_type_invariant(&*self);
        }
        if !self.found && self.asked < self.files.len() {
            self.asked = self.asked + 1;
            self.found = exists;
        }
    }

    /// Whether the program is on the path, once that is known: `Some(true)`
    /// after a yes, `Some(false)` when every file was asked about in vain,
    /// `None` while a question is pending.
    pub fn result(&self) -> (r: Option<bool>)
        ensures
            r == self@.verdict(),
            r is None <==> self@.pending() is Some,
    {
        proof {
            use_type_invariant(self);
        }
        if self.found {
            Some(true)
        } else if self.asked >= self.files.len() {
            Some(false)
        } else {
            None
        }
    }
}

} // verus!
