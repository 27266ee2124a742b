//! The decisions of the catalog's handlers: which bodies are taken, what is
//! stored, and how each reply of the store is answered.

use vstd::prelude::*;
use crate::amount::{discounted, Amount};
use crate::book::{
    all_priced, book_response, book_responses, responses_of, BookResponse, BookSchema,
    BookUpdateSchema, Books,
};
use crate::gate::JWTAuthMiddleware;
use crate::response::{ErrorKind, ErrorResponse};
use crate::schema::GenresSchema;
use crate::text::{contains_text, occurs_in};

verus! {

/// Status code answered when a record was deleted.
pub const STATUS_NO_CONTENT: u16 = 204;

/// Why a request to the catalog failed.
#[derive(Debug, Clone, Copy, PartialEq, Eq, Structural)]
pub enum CatalogFailure {
    /// The body does not meet the rules of its schema.
    InvalidInput,
    /// The store holds such a book already.
    Duplicate,
    /// The store holds no such book.
    NotFound,
    /// The store failed to add the record.
    InsertFailure,
    /// The store failed to delete the record.
    DeleteFailure,
    /// The store failed to change the record.
    UpdateFailure,
    /// The store failed to read the record.
    FetchFailure,
    /// The price after the discount cannot be computed.
    PricingFailure,
}

/// The class of each failure.
pub open spec fn catalog_kind(failure: CatalogFailure) -> ErrorKind {
    match failure {
        CatalogFailure::InvalidInput => ErrorKind::ValidationError,
        CatalogFailure::Duplicate => ErrorKind::Conflict,
        CatalogFailure::NotFound => ErrorKind::NotFound,
        CatalogFailure::InsertFailure => ErrorKind::InternalError,
        CatalogFailure::DeleteFailure => ErrorKind::InternalError,
        CatalogFailure::UpdateFailure => ErrorKind::InternalError,
        CatalogFailure::FetchFailure => ErrorKind::InternalError,
        CatalogFailure::PricingFailure => ErrorKind::InternalError,
    }
}

/// The message of each failure.
pub open spec fn catalog_text(failure: CatalogFailure) -> Seq<char> {
    match failure {
        CatalogFailure::InvalidInput => "Invalid input data"@,
        CatalogFailure::Duplicate => "Note with that title already exists"@,
        CatalogFailure::NotFound => "Book not found"@,
        CatalogFailure::InsertFailure => "Error when adding"@,
        CatalogFailure::DeleteFailure => "Error when deleting"@,
        CatalogFailure::UpdateFailure => "Error when updating book in database"@,
        CatalogFailure::FetchFailure => "Error when fetching book"@,
        CatalogFailure::PricingFailure => "Error when pricing book"@,
    }
}

impl CatalogFailure {
    /// The class of this failure.
    pub fn kind(self) -> (kind: ErrorKind)
        ensures
            kind == catalog_kind(self),
    {
        match self {
            CatalogFailure::InvalidInput => ErrorKind::ValidationError,
            CatalogFailure::Duplicate => ErrorKind::Conflict,
            CatalogFailure::NotFound => ErrorKind::NotFound,
            CatalogFailure::InsertFailure => ErrorKind::InternalError,
            CatalogFailure::DeleteFailure => ErrorKind::InternalError,
            CatalogFailure::UpdateFailure => ErrorKind::InternalError,
            CatalogFailure::FetchFailure => ErrorKind::InternalError,
            CatalogFailure::PricingFailure => ErrorKind::InternalError,
        }
    }

    /// The body that answers this failure: its message, without detail.
    pub fn response(self) -> (body: ErrorResponse)
        ensures
            body.error@ == Seq::<char>::empty(),
            body.message@ == catalog_text(self),
    {
        match self {
            CatalogFailure::InvalidInput => ErrorResponse::with_message("Invalid input data"),
            CatalogFailure::Duplicate => ErrorResponse::with_message(
                "Note with that title already exists",
            ),
            CatalogFailure::NotFound => ErrorResponse::with_message("Book not found"),
            CatalogFailure::InsertFailure => ErrorResponse::with_message("Error when adding"),
            CatalogFailure::DeleteFailure => ErrorResponse::with_message("Error when deleting"),
            CatalogFailure::UpdateFailure => ErrorResponse::with_message(
                "Error when updating book in database",
            ),
            CatalogFailure::FetchFailure => ErrorResponse::with_message("Error when fetching book"),
            CatalogFailure::PricingFailure => ErrorResponse::with_message("Error when pricing book"),
        }
    }
}

/// The record of a new book as it is handed to the store.
#[derive(Debug)]
pub struct NewBook {
    pub title: String,
    pub description: Option<String>,
    pub author_id: u128,
    pub genre_id: u128,
    pub isbn: String,
    pub cover_image: String,
    pub price: Amount,
    pub discount: Option<Amount>,
    /// The year of publication; absent where the year does not fit.
    pub publication_year: Option<i16>,
}

/// The reply of the store to a search for one row.
#[derive(Debug)]
pub enum BookLookup {
    /// The store failed.
    Failed,
    /// The store holds no such book.
    Absent,
    /// The store holds this book.
    Found(Books),
}

/// A year as the store holds it, where it fits 16 signed bits.
pub open spec fn stored_year(year: i32) -> Option<i16> {
    if i16::MIN <= year <= i16::MAX {
        Some(year as i16)
    } else {
        None
    }
}

/// The record of the book that `author_id` creates from `body` in `year`.
pub open spec fn record_for(author_id: u128, body: BookSchema, year: i32) -> NewBook {
    NewBook {
        title: body.title,
        description: body.description,
        author_id,
        genre_id: body.genre_id,
        isbn: body.isbn,
        cover_image: body.cover_image,
        price: body.price,
        discount: body.discount,
        publication_year: stored_year(year),
    }
}

/// Trusted: `chrono::Utc::now` and `Datelike::year`. The clock decides the
/// result, so nothing is claimed of it.
#[verifier::external_body]
fn current_year() -> (year: i32) {
    chrono::Datelike::year(&chrono::Utc::now())
}

/// Decides what is stored for a book that the principal creates in `year`:
/// an invalid body is refused, any other becomes a record whose author is
/// the principal.
pub fn new_book(user: &JWTAuthMiddleware, body: BookSchema, year: i32) -> (result: Result<
    NewBook,
    CatalogFailure,
>)
    ensures
        !body.valid() ==> result == Err::<NewBook, CatalogFailure>(CatalogFailure::InvalidInput),
        body.valid() ==> result == Ok::<NewBook, CatalogFailure>(
            record_for(user.user.id, body, year),
        ),
{
    if !body.validate() {
        return Err(CatalogFailure::InvalidInput);
    }
    let publication_year: Option<i16> = if -32768 <= year && year <= 32767 {
        Some(year as i16)
    } else {
        None
    };
    Ok(
        NewBook {
            title: body.title,
            description: body.description,
            author_id: user.user.id,
            genre_id: body.genre_id,
            isbn: body.isbn,
            cover_image: body.cover_image,
            price: body.price,
            discount: body.discount,
            publication_year,
        },
    )
}

/// Decides what is stored for a book that the principal creates now. The
/// year is read from the clock; the result is what `new_book` gives for it.
pub fn create_book(user: &JWTAuthMiddleware, body: BookSchema) -> (result: Result<
    NewBook,
    CatalogFailure,
>)
    ensures
        !body.valid() ==> result == Err::<NewBook, CatalogFailure>(CatalogFailure::InvalidInput),
        body.valid() ==> exists|year: i32|
            result == Ok::<NewBook, CatalogFailure>(record_for(user.user.id, body, year)),
{
    let year: i32 = current_year();
    new_book(user, body, year)
}

/// What answers the store's reply to the insertion of a book: an error that
/// speaks of a duplicate entry is a conflict, any other an internal error.
pub open spec fn inserted(reply: Result<(), String>) -> Result<(), CatalogFailure> {
    match reply {
        Ok(_) => Ok(()),
        Err(text) => if occurs_in(text@, "Duplicate entry"@) {
            Err(CatalogFailure::Duplicate)
        } else {
            Err(CatalogFailure::InsertFailure)
        },
    }
}

/// Decides what answers the store's reply to the insertion of a book.
pub fn book_inserted(reply: Result<(), String>) -> (result: Result<(), CatalogFailure>)
    ensures
        result == inserted(reply),
{
    match reply {
        Ok(_) => Ok(()),
        Err(text) => if contains_text(text.as_str(), "Duplicate entry") {
            Err(CatalogFailure::Duplicate)
        } else {
            Err(CatalogFailure::InsertFailure)
        },
    }
}

/// Decides what answers the store's reply to the deletion of a book, given
/// as the number of rows deleted or nothing where the store failed: a
/// deletion that removed no row found no book.
pub fn delete_book(rows_affected: Option<u64>) -> (result: Result<(), CatalogFailure>)
    ensures
        result == (match rows_affected {
            None => Err::<(), CatalogFailure>(CatalogFailure::DeleteFailure),
            Some(rows) => if rows == 0 {
                Err::<(), CatalogFailure>(CatalogFailure::NotFound)
            } else {
                Ok::<(), CatalogFailure>(())
            },
        }),
{
    match rows_affected {
        None => Err(CatalogFailure::DeleteFailure),
        Some(rows) => if rows == 0 {
            Err(CatalogFailure::NotFound)
        } else {
            Ok(())
        },
    }
}

/// Decides whether an update is taken: an invalid body is refused, any
/// other is handed on as it is.
pub fn update_book(body: BookUpdateSchema) -> (result: Result<BookUpdateSchema, CatalogFailure>)
    ensures
        !body.valid() ==> result == Err::<BookUpdateSchema, CatalogFailure>(
            CatalogFailure::InvalidInput,
        ),
        body.valid() ==> result == Ok::<BookUpdateSchema, CatalogFailure>(body),
{
    if !body.validate() {
        return Err(CatalogFailure::InvalidInput);
    }
    Ok(body)
}

/// Decides what answers the store's reply to an update.
pub fn book_updated(reply: BookLookup) -> (result: Result<Books, CatalogFailure>)
    ensures
        result == (match reply {
            BookLookup::Failed => Err::<Books, CatalogFailure>(CatalogFailure::UpdateFailure),
            BookLookup::Absent => Err::<Books, CatalogFailure>(CatalogFailure::NotFound),
            BookLookup::Found(book) => Ok::<Books, CatalogFailure>(book),
        }),
{
    match reply {
        BookLookup::Failed => Err(CatalogFailure::UpdateFailure),
        BookLookup::Absent => Err(CatalogFailure::NotFound),
        BookLookup::Found(book) => Ok(book),
    }
}

/// What answers the reply to a read of one book: the book's public form, or
/// `NotFound` where the error says so, or an internal error.
pub open spec fn fetched(reply: Result<Books, String>) -> Result<BookResponse, CatalogFailure> {
    match reply {
        Ok(book) => match discounted(book.price, book.discount) {
            Some(price) => Ok(book_response(book, price)),
            None => Err(CatalogFailure::PricingFailure),
        },
        Err(text) => if occurs_in(text@, "Book not found"@) {
            Err(CatalogFailure::NotFound)
        } else {
            Err(CatalogFailure::FetchFailure)
        },
    }
}

/// Decides what answers the reply to a read of one book.
pub fn get_one_book(reply: Result<Books, String>) -> (result: Result<BookResponse, CatalogFailure>)
    ensures
        result == fetched(reply),
{
    match reply {
        Ok(book) => match BookResponse::try_from_book(book) {
            Some(response) => Ok(response),
            None => Err(CatalogFailure::PricingFailure),
        },
        Err(text) => if contains_text(text.as_str(), "Book not found") {
            Err(CatalogFailure::NotFound)
        } else {
            Err(CatalogFailure::FetchFailure)
        },
    }
}

/// Decides what answers a read of all books: their public forms in order,
/// or an internal error where one of them cannot be priced.
pub fn get_all_books(books: Vec<Books>) -> (result: Result<Vec<BookResponse>, CatalogFailure>)
    ensures
        result.is_ok() == all_priced(books@),
        result.is_ok() ==> result.unwrap()@ == responses_of(books@, books@.len() as int),
        result.is_err() ==> result.unwrap_err() == CatalogFailure::PricingFailure,
{
    match book_responses(books) {
        Some(responses) => Ok(responses),
        None => Err(CatalogFailure::PricingFailure),
    }
}

/// Decides whether a genre is taken: an invalid body is refused, any other
/// is handed on as it is.
pub fn create_genres(body: GenresSchema) -> (result: Result<GenresSchema, CatalogFailure>)
    ensures
        !body.valid() ==> result == Err::<GenresSchema, CatalogFailure>(
            CatalogFailure::InvalidInput,
        ),
        body.valid() ==> result == Ok::<GenresSchema, CatalogFailure>(body),
{
    if !body.validate() {
        return Err(CatalogFailure::InvalidInput);
    }
    Ok(body)
}

} // verus!
