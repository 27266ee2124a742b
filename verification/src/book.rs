//! Books and genres as the catalog holds them, their public form, and the
//! bodies of the requests that change them.

use vstd::prelude::*;
use crate::amount::{discounted, discounted_price, Amount};

verus! {

/// A genre. Times are microseconds since the epoch.
#[derive(Debug)]
pub struct Genres {
    pub id: u128,
    pub name: String,
    pub description: Option<String>,
    pub created_at: Option<i64>,
    pub updated_at: Option<i64>,
}

/// A book. Times are microseconds since the epoch; the discount is in
/// percent.
#[derive(Debug)]
pub struct Books {
    pub id: u128,
    pub title: String,
    pub description: Option<String>,
    pub author_id: u128,
    pub genre_id: u128,
    pub publication_year: Option<i16>,
    pub isbn: String,
    pub cover_image: Option<String>,
    pub price: Amount,
    pub discount: Amount,
    pub created_at: i64,
    pub updated_at: i64,
}

/// A book as it is shown to callers: its fields and the price after the
/// discount.
#[derive(Debug)]
pub struct BookResponse {
    pub id: u128,
    pub title: String,
    pub description: Option<String>,
    pub author_id: u128,
    pub genre_id: u128,
    pub publication_year: Option<i16>,
    pub isbn: String,
    pub cover_image: Option<String>,
    pub price: Amount,
    pub discount: Amount,
    pub discounted_price: Amount,
    pub created_at: i64,
    pub updated_at: i64,
}

/// Body of a book creation.
#[derive(Debug)]
pub struct BookSchema {
    pub title: String,
    pub description: Option<String>,
    pub price: Amount,
    pub isbn: String,
    pub discount: Option<Amount>,
    pub genre_id: u128,
    pub cover_image: String,
}

/// Body of a book update: the fields to change.
#[derive(Debug)]
pub struct BookUpdateSchema {
    pub title: Option<String>,
    pub description: Option<String>,
    pub cover_image: Option<String>,
    pub price: Option<Amount>,
    pub discount: Option<Amount>,
}

/// Number of characters of an ISBN.
pub const ISBN_LENGTH: usize = 13;

impl BookSchema {
    /// A book is valid when it has a title and its ISBN has 13 characters.
    pub open spec fn valid(&self) -> bool {
        &&& self.title@.len() >= 1
        &&& self.isbn@.len() == ISBN_LENGTH
    }

    /// Decides whether the book is valid.
    pub fn validate(&self) -> (ok: bool)
        ensures
            ok == self.valid(),
    {
        self.title.as_str().unicode_len() >= 1 && self.isbn.as_str().unicode_len() == ISBN_LENGTH
    }
}

impl BookUpdateSchema {
    /// An update is valid unless it sets an empty title.
    pub open spec fn valid(&self) -> bool {
        self.title.is_some() ==> self.title.unwrap()@.len() >= 1
    }

    /// Decides whether the update is valid.
    pub fn validate(&self) -> (ok: bool)
        ensures
            ok == self.valid(),
    {
        match &self.title {
            Some(title) => title.as_str().unicode_len() >= 1,
            None => true,
        }
    }
}

/// The public form of a book whose discounted price is `discounted_price`.
pub open spec fn book_response(book: Books, discounted_price: Amount) -> BookResponse {
    BookResponse {
        id: book.id,
        title: book.title,
        description: book.description,
        author_id: book.author_id,
        genre_id: book.genre_id,
        publication_year: book.publication_year,
        isbn: book.isbn,
        cover_image: book.cover_image,
        price: book.price,
        discount: book.discount,
        discounted_price,
        created_at: book.created_at,
        updated_at: book.updated_at,
    }
}

impl BookResponse {
    /// The public form of `book`, with the price after the discount. The
    /// price and the discount must be such that the discounted price exists;
    /// `try_from_book` serves every book.
    pub fn from_book(book: Books) -> (response: BookResponse)
        requires
            discounted(book.price, book.discount).is_some(),
        ensures
            response == book_response(book, discounted(book.price, book.discount).unwrap()),
    {
        let discounted_price = match discounted_price(book.price, book.discount) {
            Some(amount) => amount,
            None => book.price,
        };
        BookResponse {
            id: book.id,
            title: book.title,
            description: book.description,
            author_id: book.author_id,
            genre_id: book.genre_id,
            publication_year: book.publication_year,
            isbn: book.isbn,
            cover_image: book.cover_image,
            price: book.price,
            discount: book.discount,
            discounted_price,
            created_at: book.created_at,
            updated_at: book.updated_at,
        }
    }

    /// The public form of `book` where its discounted price exists, and
    /// nothing where it does not.
    pub fn try_from_book(book: Books) -> (response: Option<BookResponse>)
        ensures
            response.is_some() == discounted(book.price, book.discount).is_some(),
            response.is_some() ==> response.unwrap() == book_response(
                book,
                discounted(book.price, book.discount).unwrap(),
            ),
    {
        match discounted_price(book.price, book.discount) {
            Some(_) => Some(BookResponse::from_book(book)),
            None => None,
        }
    }
}

/// The public forms of the first `count` books of a list.
pub open spec fn responses_of(books: Seq<Books>, count: int) -> Seq<BookResponse>
    recommends
        0 <= count <= books.len(),
{
    Seq::new(
        count as nat,
        |i: int| book_response(books[i], discounted(books[i].price, books[i].discount).unwrap()),
    )
}

/// Whether every book of a list has a discounted price.
pub open spec fn all_priced(books: Seq<Books>) -> bool {
    forall|i: int| 0 <= i < books.len() ==> discounted(
        #[trigger] books[i].price,
        books[i].discount,
    ).is_some()
}

/// The public forms of a list of books, in order. Absent where a book has
/// no discounted price.
pub fn book_responses(books: Vec<Books>) -> (responses: Option<Vec<BookResponse>>)
    ensures
        responses.is_some() == all_priced(books@),
        responses.is_some() ==> responses.unwrap()@ == responses_of(books@, books@.len() as int),
{
    let ghost all = books@;
    let mut pending = books;
    let mut responses: Vec<BookResponse> = Vec::new();
    let mut rest: Vec<Books> = Vec::new();
    // The list is emptied from its end, so the forms are collected backwards.
    while pending.len() > 0
        invariant
            all == books@,
            pending@.len() + rest@.len() == all.len(),
            forall|i: int| 0 <= i < pending@.len() ==> pending@[i] == all[i],
            forall|i: int|
                0 <= i < rest@.len() ==> rest@[i] == all[all.len() - 1 - i],
            forall|i: int|
                pending@.len() <= i < all.len() ==> discounted(
                    #[trigger] all[i].price,
                    all[i].discount,
                ).is_some(),
        decreases pending@.len(),
    {
        let book = pending.pop().unwrap();
        if discounted_price(book.price, book.discount).is_none() {
            proof {
                let at = pending@.len() as int;
                assert(book == all[at]);
                assert(discounted(all[at].price, all[at].discount).is_none());
                assert(!all_priced(all));
            }
            return None;
        }
        rest.push(book);
    }
    proof {
        assert(all_priced(all));
    }
    while rest.len() > 0
        invariant
            all == books@,
            responses@.len() + rest@.len() == all.len(),
            all_priced(all),
            forall|i: int|
                0 <= i < rest@.len() ==> rest@[i] == all[all.len() - 1 - i],
            responses@ == responses_of(all, responses@.len() as int),
        decreases rest@.len(),
    {
        let book = rest.pop().unwrap();
        let response = BookResponse::from_book(book);
        responses.push(response);
        proof {
            assert(responses@ =~= responses_of(all, responses@.len() as int));
        }
    }
    Some(responses)
}

} // verus!
