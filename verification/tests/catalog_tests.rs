use books::amount::{discounted_price, Amount};
use books::book::{book_responses, BookResponse, BookSchema, BookUpdateSchema, Books};
use books::cache::{get_or_set_cache, CacheEvent, CacheState, Source};
use books::catalog::{
    book_inserted, book_updated, create_book, create_genres, delete_book, get_all_books,
    get_one_book, new_book, update_book, BookLookup, CatalogFailure,
};
use books::gate::JWTAuthMiddleware;
use books::role::UserRole;
use books::schema::GenresSchema;
use books::user::User;

fn amount(mantissa: i128, scale: u32) -> Amount {
    Amount { mantissa, scale }
}

fn decimal(value: Amount) -> rust_decimal::Decimal {
    rust_decimal::Decimal::from_i128_with_scale(value.mantissa, value.scale)
}

fn book(price: Amount, discount: Amount) -> Books {
    Books {
        id: 7,
        title: "Dune".to_string(),
        description: Some("Sand.".to_string()),
        author_id: 42,
        genre_id: 3,
        publication_year: Some(1965),
        isbn: "9780441013593".to_string(),
        cover_image: None,
        price,
        discount,
        created_at: 10,
        updated_at: 20,
    }
}

fn body() -> BookSchema {
    BookSchema {
        title: "Dune".to_string(),
        description: None,
        price: amount(1999, 2),
        isbn: "9780441013593".to_string(),
        discount: Some(amount(10, 0)),
        genre_id: 3,
        cover_image: "dune.png".to_string(),
    }
}

fn author() -> JWTAuthMiddleware {
    JWTAuthMiddleware {
        user: User {
            id: 42,
            first_name: "Ann".to_string(),
            last_name: "Lee".to_string(),
            middle_name: None,
            age: 30,
            email: "a@b.com".to_string(),
            password: "digest".to_string(),
            biography: None,
            file: String::new(),
            verified: true,
            role: UserRole::Author,
            balance: Amount::zero(),
            rating: Amount::zero(),
            created_at: 1,
            updated_at: 2,
        },
        accesses_token_uuid: 9,
    }
}

#[test]
fn ten_percent_off_twenty() {
    let price = discounted_price(amount(2000, 2), amount(10, 0)).unwrap();
    assert_eq!(decimal(price), rust_decimal::Decimal::new(18, 0));
}

#[test]
fn discount_follows_the_formula() {
    let cases = [
        (amount(1999, 2), amount(25, 0), rust_decimal::Decimal::new(149925, 4)),
        (amount(100, 0), amount(0, 0), rust_decimal::Decimal::new(100, 0)),
        (amount(100, 0), amount(100, 0), rust_decimal::Decimal::new(0, 0)),
        (amount(50, 0), amount(125, 1), rust_decimal::Decimal::new(4375, 2)),
        (amount(80, 0), amount(150, 0), rust_decimal::Decimal::new(-40, 0)),
    ];
    for (price, discount, expected) in cases {
        let result = discounted_price(price, discount).unwrap();
        assert_eq!(decimal(result), expected);
    }
}

#[test]
fn discount_is_not_the_price_handed_back() {
    let price = amount(2000, 2);
    let result = discounted_price(price, amount(50, 0)).unwrap();
    assert_ne!(decimal(result), decimal(price));
    assert_eq!(decimal(result), rust_decimal::Decimal::new(10, 0));
}

#[test]
fn amounts_that_are_no_decimals_have_no_discounted_price() {
    assert_eq!(discounted_price(amount(1, 29), amount(10, 0)), None);
    assert_eq!(discounted_price(amount(1, 0), amount(10, 29)), None);
    assert_eq!(discounted_price(amount(1 << 96, 0), amount(10, 0)), None);
}

#[test]
fn overflowing_product_has_no_discounted_price() {
    let largest = amount((1 << 96) - 1, 0);
    assert_eq!(discounted_price(largest, amount(-100, 0)), None);
    assert!(discounted_price(largest, amount(0, 0)).is_some());
}

#[test]
fn public_form_of_a_book_carries_the_discounted_price() {
    let response = BookResponse::try_from_book(book(amount(2000, 2), amount(10, 0))).unwrap();
    assert_eq!(response.id, 7);
    assert_eq!(response.title, "Dune");
    assert_eq!(response.description, Some("Sand.".to_string()));
    assert_eq!(response.author_id, 42);
    assert_eq!(response.genre_id, 3);
    assert_eq!(response.publication_year, Some(1965));
    assert_eq!(response.isbn, "9780441013593");
    assert_eq!(response.cover_image, None);
    assert_eq!(response.price, amount(2000, 2));
    assert_eq!(response.discount, amount(10, 0));
    assert_eq!(decimal(response.discounted_price), rust_decimal::Decimal::new(18, 0));
    assert_eq!(response.created_at, 10);
    assert_eq!(response.updated_at, 20);
}

#[test]
fn from_book_agrees_with_try_from_book() {
    let direct = BookResponse::from_book(book(amount(2000, 2), amount(10, 0)));
    let tried = BookResponse::try_from_book(book(amount(2000, 2), amount(10, 0))).unwrap();
    assert_eq!(direct.discounted_price, tried.discounted_price);
    assert_eq!(direct.title, tried.title);
}

#[test]
fn book_that_cannot_be_priced_has_no_public_form() {
    assert!(BookResponse::try_from_book(book(amount(1, 40), amount(10, 0))).is_none());
}

#[test]
fn public_forms_keep_the_order_of_the_books() {
    let mut first = book(amount(100, 0), amount(10, 0));
    first.id = 1;
    let mut second = book(amount(200, 0), amount(50, 0));
    second.id = 2;
    let mut third = book(amount(300, 0), amount(0, 0));
    third.id = 3;
    let responses = book_responses(vec![first, second, third]).unwrap();
    assert_eq!(responses.len(), 3);
    assert_eq!(responses[0].id, 1);
    assert_eq!(decimal(responses[0].discounted_price), rust_decimal::Decimal::new(90, 0));
    assert_eq!(responses[1].id, 2);
    assert_eq!(decimal(responses[1].discounted_price), rust_decimal::Decimal::new(100, 0));
    assert_eq!(responses[2].id, 3);
    assert_eq!(decimal(responses[2].discounted_price), rust_decimal::Decimal::new(300, 0));
    assert_eq!(book_responses(Vec::new()).unwrap().len(), 0);
}

#[test]
fn one_unpriced_book_fails_the_list() {
    let good = book(amount(100, 0), amount(10, 0));
    let bad = book(amount(1, 40), amount(10, 0));
    assert!(book_responses(vec![good, bad]).is_none());
    let good = book(amount(100, 0), amount(10, 0));
    let bad = book(amount(1, 40), amount(10, 0));
    assert_eq!(get_all_books(vec![bad, good]).err(), Some(CatalogFailure::PricingFailure));
    let good = book(amount(100, 0), amount(10, 0));
    assert_eq!(get_all_books(vec![good]).unwrap().len(), 1);
}

#[test]
fn book_rules_are_enforced() {
    assert!(body().validate());
    let mut untitled = body();
    untitled.title = String::new();
    assert!(!untitled.validate());
    let mut short = body();
    short.isbn = "978044101359".to_string();
    assert!(!short.validate());
    let mut long = body();
    long.isbn = "97804410135930".to_string();
    assert!(!long.validate());
}

#[test]
fn update_rules_are_enforced() {
    let empty = BookUpdateSchema { title: None, description: None, cover_image: None, price: None, discount: None };
    assert!(empty.validate());
    let titled = BookUpdateSchema { title: Some("x".to_string()), description: None, cover_image: None, price: None, discount: None };
    assert!(titled.validate());
    let untitled = BookUpdateSchema { title: Some(String::new()), description: None, cover_image: None, price: None, discount: None };
    assert!(!untitled.validate());
    assert_eq!(update_book(untitled).err(), Some(CatalogFailure::InvalidInput));
    let titled = BookUpdateSchema { title: Some("x".to_string()), description: None, cover_image: None, price: None, discount: None };
    assert_eq!(update_book(titled).unwrap().title, Some("x".to_string()));
}

#[test]
fn new_book_belongs_to_the_principal() {
    let record = new_book(&author(), body(), 2024).unwrap();
    assert_eq!(record.author_id, 42);
    assert_eq!(record.title, "Dune");
    assert_eq!(record.description, None);
    assert_eq!(record.genre_id, 3);
    assert_eq!(record.isbn, "9780441013593");
    assert_eq!(record.cover_image, "dune.png");
    assert_eq!(record.price, amount(1999, 2));
    assert_eq!(record.discount, Some(amount(10, 0)));
    assert_eq!(record.publication_year, Some(2024));
}

#[test]
fn year_that_does_not_fit_is_left_out() {
    assert_eq!(new_book(&author(), body(), 32_767).unwrap().publication_year, Some(32_767));
    assert_eq!(new_book(&author(), body(), 32_768).unwrap().publication_year, None);
    assert_eq!(new_book(&author(), body(), -32_768).unwrap().publication_year, Some(-32_768));
    assert_eq!(new_book(&author(), body(), -32_769).unwrap().publication_year, None);
}

#[test]
fn invalid_book_is_refused() {
    let mut untitled = body();
    untitled.title = String::new();
    assert_eq!(new_book(&author(), untitled, 2024).err(), Some(CatalogFailure::InvalidInput));
    let mut untitled = body();
    untitled.title = String::new();
    assert_eq!(create_book(&author(), untitled).err(), Some(CatalogFailure::InvalidInput));
}

#[test]
fn book_created_now_carries_this_year() {
    let record = create_book(&author(), body()).unwrap();
    let year = record.publication_year.unwrap();
    assert!(year >= 2024);
    assert_eq!(record.author_id, 42);
}

#[test]
fn insertion_replies_are_answered() {
    assert_eq!(book_inserted(Ok(())), Ok(()));
    assert_eq!(
        book_inserted(Err("Error 1062: Duplicate entry 'Dune' for key".to_string())),
        Err(CatalogFailure::Duplicate)
    );
    assert_eq!(book_inserted(Err("connection reset".to_string())), Err(CatalogFailure::InsertFailure));
    assert_eq!(book_inserted(Err(String::new())), Err(CatalogFailure::InsertFailure));
}

#[test]
fn deletion_replies_are_answered() {
    assert_eq!(delete_book(Some(1)), Ok(()));
    assert_eq!(delete_book(Some(2)), Ok(()));
    assert_eq!(delete_book(Some(0)), Err(CatalogFailure::NotFound));
    assert_eq!(delete_book(None), Err(CatalogFailure::DeleteFailure));
}

#[test]
fn update_replies_are_answered() {
    assert_eq!(book_updated(BookLookup::Failed).err(), Some(CatalogFailure::UpdateFailure));
    assert_eq!(book_updated(BookLookup::Absent).err(), Some(CatalogFailure::NotFound));
    let found = book_updated(BookLookup::Found(book(amount(1, 0), amount(0, 0)))).unwrap();
    assert_eq!(found.id, 7);
}

#[test]
fn read_replies_are_answered() {
    let found = get_one_book(Ok(book(amount(2000, 2), amount(10, 0)))).unwrap();
    assert_eq!(decimal(found.discounted_price), rust_decimal::Decimal::new(18, 0));
    assert_eq!(
        get_one_book(Err("Book not found- ResponseError".to_string())).err(),
        Some(CatalogFailure::NotFound)
    );
    assert_eq!(
        get_one_book(Err("Database error".to_string())).err(),
        Some(CatalogFailure::FetchFailure)
    );
    assert_eq!(
        get_one_book(Ok(book(amount(1, 40), amount(10, 0)))).err(),
        Some(CatalogFailure::PricingFailure)
    );
}

#[test]
fn catalog_failures_have_their_status_and_message() {
    let cases = [
        (CatalogFailure::InvalidInput, 400, "Invalid input data"),
        (CatalogFailure::Duplicate, 409, "Note with that title already exists"),
        (CatalogFailure::NotFound, 404, "Book not found"),
        (CatalogFailure::InsertFailure, 500, "Error when adding"),
        (CatalogFailure::DeleteFailure, 500, "Error when deleting"),
        (CatalogFailure::UpdateFailure, 500, "Error when updating book in database"),
        (CatalogFailure::FetchFailure, 500, "Error when fetching book"),
        (CatalogFailure::PricingFailure, 500, "Error when pricing book"),
    ];
    for (failure, status, message) in cases {
        assert_eq!(failure.kind().status_code(), status);
        assert_eq!(failure.response().message, message);
        assert_eq!(failure.response().error, "");
    }
}

#[test]
fn genre_without_a_name_is_refused() {
    let unnamed = GenresSchema { name: String::new(), description: None };
    assert_eq!(create_genres(unnamed).err(), Some(CatalogFailure::InvalidInput));
    let named = GenresSchema { name: "Drama".to_string(), description: None };
    assert_eq!(create_genres(named).unwrap().name, "Drama");
}

#[test]
fn cached_value_is_served_without_a_fetch() {
    let state = get_or_set_cache(CacheState::Connecting, CacheEvent::Connected { ok: true });
    assert_eq!(state, CacheState::Reading);
    let state = get_or_set_cache(state, CacheEvent::Read { usable: true });
    assert_eq!(state, CacheState::Served { source: Source::Cache });
}

#[test]
fn missing_value_is_fetched_and_stored() {
    let state = get_or_set_cache(CacheState::Reading, CacheEvent::Read { usable: false });
    assert_eq!(state, CacheState::Fetching);
    let state = get_or_set_cache(state, CacheEvent::Fetched { ok: true });
    assert_eq!(state, CacheState::Storing);
    let state = get_or_set_cache(state, CacheEvent::Stored { ok: true });
    assert_eq!(state, CacheState::Served { source: Source::Fetch });
}

#[test]
fn failed_store_does_not_fail_the_read() {
    let state = get_or_set_cache(CacheState::Storing, CacheEvent::Stored { ok: false });
    assert_eq!(state, CacheState::Served { source: Source::Fetch });
}

#[test]
fn failed_connection_and_failed_fetch_fail_the_read() {
    let state = get_or_set_cache(CacheState::Connecting, CacheEvent::Connected { ok: false });
    assert_eq!(state, CacheState::Failed);
    let state = get_or_set_cache(CacheState::Fetching, CacheEvent::Fetched { ok: false });
    assert_eq!(state, CacheState::Failed);
}

#[test]
fn unexpected_cache_events_leave_the_state_alone() {
    let state = get_or_set_cache(CacheState::Connecting, CacheEvent::Fetched { ok: true });
    assert_eq!(state, CacheState::Connecting);
    let state = get_or_set_cache(CacheState::Failed, CacheEvent::Connected { ok: true });
    assert_eq!(state, CacheState::Failed);
    let served = CacheState::Served { source: Source::Cache };
    assert_eq!(get_or_set_cache(served, CacheEvent::Stored { ok: true }), served);
}
