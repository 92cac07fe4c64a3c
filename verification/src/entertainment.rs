//! Books, tracked by how far the reader has got.

use crate::state::State;
use crate::task::Task;
use vstd::prelude::*;

verus! {

/// Why a book was refused.
#[derive(Debug, PartialEq, Eq, Structural)]
pub enum BookError {
    /// A book must have at least one page.
    InvalidPageCount,
    /// The page lies beyond the end of the book.
    PageOutOfRange,
}

impl BookError {
    /// The refusal in words.
    pub fn message(&self) -> (text: String)
        ensures
            text@ == match self {
                BookError::InvalidPageCount =>
                    "A blank page is no empty space. It is brimming with potential... - AA Patawarn"@,
                BookError::PageOutOfRange => "Pages entered are over max page count."@,
            },
    {
        match self {
            BookError::InvalidPageCount =>
                "A blank page is no empty space. It is brimming with potential... - AA Patawarn".to_string(),
            BookError::PageOutOfRange => "Pages entered are over max page count.".to_string(),
        }
    }
}

/// A book and the page its reader has reached.
pub struct Book {
    title: String,
    author: String,
    pages: usize,
    current_page: usize,
}

/// The mathematical content of a [`Book`].
pub struct BookView {
    pub title: Seq<char>,
    pub author: Seq<char>,
    pub pages: nat,
    pub current_page: nat,
}

impl BookView {
    /// A book has at least one page, and its reader is somewhere between
    /// the cover (page 0) and the last page.
    pub open spec fn valid(self) -> bool {
        0 < self.pages && self.current_page <= self.pages
    }

    /// The lifecycle state, read off the page position.
    pub open spec fn progress(self) -> State {
        if self.current_page == self.pages {
            State::Complete
        } else if self.current_page == 0 {
            State::Stopped
        } else {
            State::Started
        }
    }

    /// The same book with the reader at `page`.
    pub open spec fn at_page(self, page: nat) -> BookView {
        BookView { current_page: page, ..self }
    }

    /// The same book, read to the end.
    pub open spec fn completed(self) -> BookView {
        self.at_page(self.pages)
    }

    /// The same book, opened at page 1 if it was stopped; a book that is
    /// begun or read to the end stays as it is.
    pub open spec fn started(self) -> BookView {
        if self.progress() == State::Stopped {
            self.at_page(1)
        } else {
            self
        }
    }
}

impl View for Book {
    type V = BookView;

    closed spec fn view(&self) -> BookView {
        BookView {
            title: self.title@,
            author: self.author@,
            pages: self.pages as nat,
            current_page: self.current_page as nat,
        }
    }
}

impl Book {
    #[verifier::type_invariant]
    pub closed spec fn well_formed(&self) -> bool {
        self@.valid()
    }

    /// This book with the reader at `page`, and nothing else changed.
    pub closed spec fn at_page(self, page: usize) -> Book {
        Book { current_page: page, ..self }
    }

    /// Moving the reader changes the page in the view and nothing else.
    pub broadcast proof fn lemma_at_page_view(self, page: usize)
        ensures
            #[trigger] self.at_page(page)@ == self@.at_page(page as nat),
    {
    }

    /// The transitions of a book show in its view as the transitions of the
    /// view.
    pub proof fn lemma_transitions_view(self)
        ensures
            self.completed()@ == self@.completed(),
            self.started()@ == self@.started(),
    {
    }

    /// A new, untouched book. A book without pages is refused.
    pub fn new(title: &str, author: &str, pages: usize) -> (made: Result<Self, BookError>)
        ensures
            pages > 0 ==> made is Ok,
            pages == 0 ==> made == Err::<Self, BookError>(BookError::InvalidPageCount),
            made matches Ok(book) ==> book@ == (BookView {
                title: title@,
                author: author@,
                pages: pages as nat,
                current_page: 0,
            }),
            made matches Ok(book) ==> book.state() == State::Stopped,
    {
        if pages > 0 {
            Ok(Book { title: title.to_string(), author: author.to_string(), pages, current_page: 0 })
        } else {
            Err(BookError::InvalidPageCount)
        }
    }

    pub fn title(&self) -> (title: &str)
        ensures
            title@ == self@.title,
    {
        self.title.as_str()
    }

    pub fn author(&self) -> (author: &str)
        ensures
            author@ == self@.author,
    {
        self.author.as_str()
    }

    /// The number of pages, which is never zero.
    pub fn page_count(&self) -> (pages: usize)
        ensures
            pages == self@.pages,
            self@.valid(),
    {
        proof {
            use_type_invariant(self);
        }
        self.pages
    }

    /// The page the reader has reached, which is never beyond the last.
    pub fn current_page(&self) -> (page: usize)
        ensures
            page == self@.current_page,
            self@.valid(),
    {
        proof {
            use_type_invariant(self);
        }
        self.current_page
    }

    /// Moves the reader to `page`. A page beyond the end is refused and
    /// leaves the book as it was.
    pub fn set_current_page(&mut self, page: usize) -> (moved: Result<(), BookError>)
        ensures
            page <= old(self)@.pages ==> moved is Ok && *final(self) == old(self).at_page(page),
            page <= old(self)@.pages ==> final(self)@ == old(self)@.at_page(page as nat),
            page > old(self)@.pages ==> moved == Err::<(), BookError>(BookError::PageOutOfRange)
                && *final(self) == *old(self),
    {
        proof {
            use_type_invariant(&*self);
        }
        if page > self.pages {
            return Err(BookError::PageOutOfRange);
        }
        self.current_page = page;
        Ok(())
    }
}

impl Task for Book {
    open spec fn label(&self) -> Seq<char> {
        self@.title
    }

    open spec fn state(&self) -> State {
        self@.progress()
    }

    open spec fn completed(self) -> Book {
        self.at_page(self@.pages as usize)
    }

    open spec fn started(self) -> Book {
        if self.state() == State::Stopped {
            self.at_page(1)
        } else {
            self
        }
    }

    proof fn lemma_completed_is_complete(self) {
    }

    proof fn lemma_started_is_begun(self) {
    }

    proof fn lemma_start_leaves_begun(self) {
    }

    proof fn lemma_start_twice(self) {
    }

    /// A book goes by its title.
    fn name(&self) -> (label: String) {
        self.title().to_string()
    }

    /// `Complete` on the last page, `Stopped` on page 0, `Started` in between.
    fn progress(&self) -> (state: State) {
        if self.current_page() == self.page_count() {
            return State::Complete;
        }
        if self.current_page() > 0 {
            return State::Started;
        }
        State::Stopped
    }

    /// Turns to the last page, wherever the reader was.
    fn complete(self) -> (done: Self)
        ensures
            done@ == self@.completed(),
    {
        let mut book = self;
        let last = book.page_count();
        book.set_current_page(last).unwrap();
        book
    }

    /// Opens an untouched book at page 1; a book already begun or read to
    /// the end stays as it is.
    fn start(self) -> (begun: Self)
        ensures
            begun@ == self@.started(),
            self@.current_page == 0 ==> begun@.current_page == 1,
            self@.current_page != 0 ==> begun == self,
    {
        let mut book = self;
        match book.current_page() {
            0 => {
                book.set_current_page(1).unwrap();
                book
            },
            _ => book,
        }
    }
}

} // verus!
