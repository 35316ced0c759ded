use sqlx::sqlite::SqlitePoolOptions;
use sqlx::{Row, SqlitePool};
use std::future::Future;
use weather_server_lib::api::{
    registered, Api, LoginBody, LoginResponse, NewAccount, RegisterBody, RegisterResponse,
    RegisterResponseBody, ResponseMessage,
};
use weather_server_lib::authorization::{check_token, Keys};
use weather_server_lib::queries::SqlError;

fn block_on<F: Future>(future: F) -> F::Output {
    tokio::runtime::Builder::new_current_thread()
        .enable_all()
        .build()
        .expect("no runtime")
        .block_on(future)
}

async fn database() -> SqlitePool {
    let pool = SqlitePoolOptions::new()
        .max_connections(1)
        .connect("sqlite::memory:")
        .await
        .expect("no database");
    sqlx::query(
        "CREATE TABLE user (
            id INTEGER PRIMARY KEY,
            username TEXT NOT NULL UNIQUE,
            email TEXT NOT NULL UNIQUE,
            password TEXT NOT NULL
        )",
    )
    .execute(&pool)
    .await
    .expect("no table");
    pool
}

async fn insert(pool: &SqlitePool, account: &NewAccount) -> Result<u64, SqlError> {
    let row = sqlx::query(
        "INSERT INTO user (id, username, email, password) VALUES (NULL, $1, $2, $3) RETURNING id",
    )
    .bind(&account.username)
    .bind(&account.email)
    .bind(&account.password_hash)
    .fetch_one(pool)
    .await
    .map_err(SqlError::from)?;
    Ok(row.get::<u64, &str>("id"))
}

async fn find(pool: &SqlitePool, identifier: &str) -> Option<(u64, String)> {
    let found = sqlx::query("SELECT id, password FROM user WHERE username = ? OR email = ?")
        .bind(identifier)
        .bind(identifier)
        .fetch_one(pool)
        .await;
    match found {
        Ok(row) => Some((row.get::<u64, &str>("id"), row.get::<String, &str>("password"))),
        Err(_) => None,
    }
}

async fn count(pool: &SqlitePool) -> i64 {
    sqlx::query("SELECT COUNT(*) AS n FROM user")
        .fetch_one(pool)
        .await
        .expect("no count")
        .get::<i64, &str>("n")
}

async fn register(api: &Api, pool: &SqlitePool, body: RegisterBody) -> RegisterResponse {
    match api.register(body) {
        Ok(account) => registered(insert(pool, &account).await),
        Err(response) => response,
    }
}

fn body(username: &str, email: &str, password: &str) -> RegisterBody {
    RegisterBody {
        username: username.to_owned(),
        email: email.to_owned(),
        password: password.to_owned(),
    }
}

fn login(identifier: &str, password: &str) -> LoginBody {
    LoginBody { identifier: identifier.to_owned(), password: password.to_owned() }
}

#[test]
fn username_or_email_is_registered_once() {
    block_on(async {
        let api = Api::new(Keys::new(b"secret"), false);
        let pool = database().await;
        let taken = RegisterResponse::AlreadyRegistered(ResponseMessage::new(
            "A user with given credentials already exists.",
        ));

        let first = register(&api, &pool, body("jane.doe_1", "jane@example.org", "Secur3!pass")).await;
        let same_username =
            register(&api, &pool, body("jane.doe_1", "jane@example.com", "Secur3!pass")).await;
        let same_email =
            register(&api, &pool, body("jane.doe_2", "jane@example.org", "0ther!pass")).await;

        assert_eq!(first, RegisterResponse::Registered(RegisterResponseBody { user_id: 1 }));
        assert_eq!(same_username, taken);
        assert_eq!(same_email, taken);
        assert_eq!(count(&pool).await, 1);

        let second = register(&api, &pool, body("john.doe_1", "john@example.org", "Secur3!pass")).await;

        assert_eq!(second, RegisterResponse::Registered(RegisterResponseBody { user_id: 2 }));
        assert_eq!(count(&pool).await, 2);
    });
}

#[test]
fn invalid_credentials_reach_no_storage() {
    block_on(async {
        let api = Api::new(Keys::new(b"secret"), false);
        let pool = database().await;

        let response = register(&api, &pool, body("jane", "jane@example.org", "Secur3!pass")).await;

        assert!(matches!(response, RegisterResponse::InvalidCredentials(_)));
        assert_eq!(count(&pool).await, 0);
    });
}

#[test]
fn registered_user_logs_in_by_username_and_by_email() {
    block_on(async {
        let keys = Keys::new(b"secret");
        let api = Api::new(Keys::new(b"secret"), false);
        let pool = database().await;
        register(&api, &pool, body("jane.doe_1", "Jane <jane@example.org>", "Secur3!pass")).await;

        for identifier in ["jane.doe_1", "jane@example.org"] {
            let found = find(&pool, identifier).await;
            assert_eq!(found.as_ref().map(|account| account.0), Some(1));

            match api.login(&login(identifier, "Secur3!pass"), found) {
                LoginResponse::LoggedIn(body) => assert!(check_token(&body.token, &keys)),
                other => panic!("not logged in: {:?}", other),
            }
        }
    });
}

#[test]
fn unknown_user_and_wrong_password_are_told_the_same() {
    block_on(async {
        let api = Api::new(Keys::new(b"secret"), false);
        let pool = database().await;
        register(&api, &pool, body("jane.doe_1", "jane@example.org", "Secur3!pass")).await;
        let wrong = LoginResponse::WrongCredentials(ResponseMessage::new(
            "Username/email or password is wrong.",
        ));

        let found = find(&pool, "jane.doe_1").await;
        let missing = find(&pool, "john.doe_1").await;

        assert_eq!(missing, None);
        assert_eq!(api.login(&login("jane.doe_1", "wrongpass1"), found), wrong);
        assert_eq!(api.login(&login("john.doe_1", "wrongpass1"), missing.clone()), wrong);
        assert_eq!(api.login(&login("john.doe_1", "Secur3!pass"), missing), wrong);
    });
}
