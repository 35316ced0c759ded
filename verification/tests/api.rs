use weather_server_lib::api::{
    get_ip_address, login_response, registered, weather_fetched, weather_located, Api,
    HealthResponse, LoginBody, LoginResponse, NewAccount, RegisterBody, RegisterCredentials,
    RegisterResponse, RegisterResponseBody, ResponseMessage, WeatherResponse, IP_BLOCK_SIZE,
    IP_BLOCK_START, NO_USER, PASSWORD_SYMBOLS,
};
use weather_server_lib::authorization::{check_token_at, create_token_at, read_token, Keys};
use weather_server_lib::helpers::{IpAddress, LOOPBACK_V4, LOOPBACK_V6};
use weather_server_lib::http_client::{
    ClientError, Condition, Current, GeolocationApiResponse, Location, WeatherApiResponse,
};
use weather_server_lib::password::validate;
use weather_server_lib::queries::SqlError;

const SALT: &str = "c2FsdHNhbHRzYWx0";

fn api() -> Api {
    Api::new(Keys::new(b"secret"), false)
}

fn body(username: &str, email: &str, password: &str) -> RegisterBody {
    RegisterBody {
        username: username.to_owned(),
        email: email.to_owned(),
        password: password.to_owned(),
    }
}

fn fault(username: &str, email: &str, password: &str) -> String {
    RegisterCredentials::try_from(body(username, email, password)).expect_err("no fault found")
}

fn stored(username: &str, email: &str, password: &str) -> NewAccount {
    api().register_with_salt(body(username, email, password), SALT).expect("registration ended")
}

fn login(identifier: &str, password: &str) -> LoginBody {
    LoginBody { identifier: identifier.to_owned(), password: password.to_owned() }
}

#[test]
fn health_check_succeeds() {
    assert_eq!(api().health_check(), HealthResponse::Alive);
}

#[test]
fn register_succeeds() {
    let account = api()
        .register(body("jane.doe_1", "jane@example.org", "Secur3!pass"))
        .expect("registration request failed");

    assert_eq!(account.username, "jane.doe_1");
    assert_eq!(account.email, "jane@example.org");
    assert!(validate("Secur3!pass".to_owned(), Some(account.password_hash)));

    let response = registered(Ok(1));

    assert_eq!(response, RegisterResponse::Registered(RegisterResponseBody { user_id: 1 }));
}

#[test]
fn login_with_username_succeeds() {
    let account = stored("jane.doe_1", "jane@example.org", "Secur3!pass");

    let response =
        api().login(&login(&account.username, "Secur3!pass"), Some((1, account.password_hash)));

    assert!(matches!(response, LoginResponse::LoggedIn(_)));
}

#[test]
fn login_with_email_succeeds() {
    let account = stored("jane.doe_1", "jane@example.org", "Secur3!pass");

    let response =
        api().login(&login(&account.email, "Secur3!pass"), Some((1, account.password_hash)));

    assert!(matches!(response, LoginResponse::LoggedIn(_)));
}

#[test]
fn get_weather_with_logged_in_user_succeeds() {
    let keys = Keys::new(b"secret");
    let token = create_token_at(0, &keys, 1000).expect("token creation failed");
    let api = Api::new(keys, true);

    let address = api
        .weather_at::<f64>(&token, Some(IpAddress::V4(LOOPBACK_V4)), 77, 2000)
        .expect("weather request failed");
    assert_eq!(address, IpAddress::V4(u32::from_be_bytes([78, 160, 0, 77])));

    let coordinate = weather_located(Ok(GeolocationApiResponse { latitude: 41.0, longitude: 29.0 }))
        .expect("weather request failed");
    assert_eq!(coordinate.latitude, 41.0);
    assert_eq!(coordinate.longitude, 29.0);

    let response = weather_fetched(Ok(WeatherApiResponse {
        location: Location,
        current: Current {
            last_updated: "2024-05-01 12:30".to_owned(),
            temp_c: 21.5,
            condition: Condition { text: "Sunny".to_owned() },
            feelslike_c: 19.0,
        },
    }));

    assert!(matches!(response, WeatherResponse::Success(_)));
}

#[test]
fn valid_credentials_are_handed_back() {
    let credentials = RegisterCredentials::try_from(body("jane.doe_1", "jane@example.org", "Secur3!pass"))
        .expect("credentials were refused");

    assert_eq!(credentials.username, "jane.doe_1");
    assert_eq!(credentials.email, "jane@example.org");
    assert_eq!(credentials.password, "Secur3!pass");
}

#[test]
fn email_is_reduced_to_its_address() {
    let credentials =
        RegisterCredentials::try_from(body("jane.doe_1", "Jane Doe <jane@example.org>", "Secur3!pass"))
            .expect("credentials were refused");

    assert_eq!(credentials.email, "jane@example.org");
}

#[test]
fn username_is_of_six_to_twenty_four_characters() {
    let said = "Username needs to be at least 6 and at most 24 characters";

    assert_eq!(fault("", "jane@example.org", "Secur3!pass"), said);
    assert_eq!(fault("abcde", "jane@example.org", "Secur3!pass"), said);
    assert_eq!(fault(&"a".repeat(25), "jane@example.org", "Secur3!pass"), said);
    assert!(RegisterCredentials::try_from(body("abcdef", "jane@example.org", "Secur3!pass")).is_ok());
    assert!(RegisterCredentials::try_from(body(&"a".repeat(24), "jane@example.org", "Secur3!pass"))
        .is_ok());
}

#[test]
fn username_is_measured_in_characters() {
    let said = "Username needs to be at least 6 and at most 24 characters";

    assert_eq!(fault("ñañañ", "jane@example.org", "Secur3!pass"), said);
    assert!(RegisterCredentials::try_from(body("ñañañé", "jane@example.org", "Secur3!pass")).is_ok());
    assert!(RegisterCredentials::try_from(body(&"ñ".repeat(24), "jane@example.org", "Secur3!pass"))
        .is_ok());
}

#[test]
fn username_holds_letters_numbers_dots_and_underscores() {
    let said = "Username can only contain letters, numbers, dots and underscores";

    assert_eq!(fault("jane-doe", "jane@example.org", "Secur3!pass"), said);
    assert_eq!(fault("jane doe", "jane@example.org", "Secur3!pass"), said);
    assert_eq!(fault("jane@doe", "jane@example.org", "Secur3!pass"), said);
    assert!(RegisterCredentials::try_from(body("J.d_42", "jane@example.org", "Secur3!pass")).is_ok());
    assert!(RegisterCredentials::try_from(body("......", "jane@example.org", "Secur3!pass")).is_ok());
}

#[test]
fn email_is_a_valid_address() {
    let said = "Username can only contain letters, numbers, dots and underscores";

    assert_eq!(fault("jane.doe_1", "", "Secur3!pass"), said);
    assert_eq!(fault("jane.doe_1", "jane", "Secur3!pass"), said);
    assert_eq!(fault("jane.doe_1", "jane@", "Secur3!pass"), said);
    assert_eq!(fault("jane.doe_1", "@example.org", "Secur3!pass"), said);
}

#[test]
fn password_is_of_eight_to_thirty_two_characters() {
    let said = "Password needs to be at least 8 and at most 32 characters";

    assert_eq!(fault("jane.doe_1", "jane@example.org", ""), said);
    assert_eq!(fault("jane.doe_1", "jane@example.org", "Secur3!"), said);
    assert_eq!(fault("jane.doe_1", "jane@example.org", &"a".repeat(33)), said);
    assert!(RegisterCredentials::try_from(body("jane.doe_1", "jane@example.org", "Secur3!p")).is_ok());
    assert!(
        RegisterCredentials::try_from(body("jane.doe_1", "jane@example.org", &"a".repeat(32))).is_ok()
    );
}

#[test]
fn password_holds_letters_numbers_and_the_symbols() {
    let said = "Username can only contain letters, numbers and symbols ~!@$%^&*()_-+={[}]|:',.?/";

    assert_eq!(PASSWORD_SYMBOLS, "~!@$%^&*()_-+={[}]|:',.?/");
    assert_eq!(fault("jane.doe_1", "jane@example.org", "Secur3 pass"), said);
    assert_eq!(fault("jane.doe_1", "jane@example.org", "Secur3#pass"), said);
    assert_eq!(fault("jane.doe_1", "jane@example.org", "Secur3\"pass"), said);
    assert_eq!(fault("jane.doe_1", "jane@example.org", "Secur3<pass>"), said);
    assert!(
        RegisterCredentials::try_from(body("jane.doe_1", "jane@example.org", PASSWORD_SYMBOLS)).is_ok()
    );
    assert!(
        RegisterCredentials::try_from(body("jane.doe_1", "jane@example.org", "pässwörd")).is_ok()
    );
}

#[test]
fn first_broken_rule_is_the_one_that_is_said() {
    assert_eq!(
        fault("jane", "jane", "pass"),
        "Username needs to be at least 6 and at most 24 characters"
    );
    assert_eq!(
        fault("jane-doe", "jane", "pass"),
        "Username can only contain letters, numbers, dots and underscores"
    );
    assert_eq!(
        fault("jane.doe_1", "jane@example.org", "pa ss"),
        "Password needs to be at least 8 and at most 32 characters"
    );
    assert_eq!(
        fault("jane.doe_1", "jane", "pa ss"),
        "Username can only contain letters, numbers, dots and underscores"
    );
}

#[test]
fn message_holds_its_text() {
    assert_eq!(ResponseMessage::new("Login failed.").message(), "Login failed.");
    assert_eq!(ResponseMessage::new("").message(), "");
}

#[test]
fn invalid_credentials_end_the_registration() {
    let response = api()
        .register_with_salt(body("jane", "jane@example.org", "Secur3!pass"), SALT)
        .expect_err("registration went on");

    assert_eq!(
        response,
        RegisterResponse::InvalidCredentials(ResponseMessage::new(
            "Invalid credentials: Username needs to be at least 6 and at most 24 characters"
        ))
    );
    assert!(matches!(
        api().register(body("jane.doe_1", "jane@example.org", "pass")),
        Err(RegisterResponse::InvalidCredentials(_))
    ));
}

#[test]
fn account_is_stored_with_its_password_hashed() {
    let account = stored("jane.doe_1", "Jane <jane@example.org>", "Secur3!pass");

    assert_eq!(account.username, "jane.doe_1");
    assert_eq!(account.email, "jane@example.org");
    assert_ne!(account.password_hash, "Secur3!pass");
    assert!(account.password_hash.starts_with("$argon2id$v=19$m=15000,t=2,p=1$c2FsdHNhbHRzYWx0$"));
    assert!(validate("Secur3!pass".to_owned(), Some(account.password_hash.clone())));
    assert!(!validate("wrongpass1".to_owned(), Some(account.password_hash)));
}

#[test]
fn refused_hashing_fails_the_registration() {
    let response = api()
        .register_with_salt(body("jane.doe_1", "jane@example.org", "Secur3!pass"), "no salt")
        .expect_err("registration went on");

    assert_eq!(
        response,
        RegisterResponse::RegistrationFailed(ResponseMessage::new("Registration failed . Try again."))
    );
}

#[test]
fn storage_outcome_is_answered() {
    assert_eq!(
        registered(Ok(17)),
        RegisterResponse::Registered(RegisterResponseBody { user_id: 17 })
    );
    assert_eq!(
        registered(Err(SqlError::UniqueConstraintViolation)),
        RegisterResponse::AlreadyRegistered(ResponseMessage::new(
            "A user with given credentials already exists."
        ))
    );
    assert_eq!(
        registered(Err(SqlError::Other)),
        RegisterResponse::RegistrationFailed(ResponseMessage::new("Registration failed . Try again."))
    );
}

#[test]
fn second_registration_of_a_username_is_already_registered() {
    let first = api().register_with_salt(body("jane.doe_1", "jane@example.org", "Secur3!pass"), SALT);
    let second = api().register_with_salt(body("jane.doe_1", "jane@example.com", "Secur3!pass"), SALT);

    assert!(first.is_ok());
    assert!(second.is_ok());
    assert!(matches!(registered(Ok(1)), RegisterResponse::Registered(_)));
    assert!(matches!(
        registered(Err(SqlError::UniqueConstraintViolation)),
        RegisterResponse::AlreadyRegistered(_)
    ));
}

#[test]
fn login_is_answered_by_verification_and_token() {
    assert_eq!(
        login_response(true, Some("token".to_owned())),
        LoginResponse::LoggedIn(weather_server_lib::api::LoginResponseBody { token: "token".to_owned() })
    );
    assert_eq!(
        login_response(true, None),
        LoginResponse::CouldNotCreateToken(ResponseMessage::new("Login failed."))
    );
    assert_eq!(
        login_response(false, Some("token".to_owned())),
        LoginResponse::WrongCredentials(ResponseMessage::new("Username/email or password is wrong."))
    );
    assert_eq!(
        login_response(false, None),
        LoginResponse::WrongCredentials(ResponseMessage::new("Username/email or password is wrong."))
    );
}

#[test]
fn registered_user_logs_in_and_the_token_is_accepted() {
    let keys = Keys::new(b"secret");
    let account = stored("jane.doe_1", "jane@example.org", "Secur3!pass");

    let response =
        api().login_at(&login("jane.doe_1", "Secur3!pass"), Some((5, account.password_hash)), 1000);

    let token = match response {
        LoginResponse::LoggedIn(body) => body.token,
        other => panic!("not logged in: {:?}", other),
    };
    assert_eq!(token, create_token_at(5, &keys, 1000).expect("token creation failed"));
    assert_eq!(read_token(&token, &keys).map(|body| body.user_id), Some(5));
    assert!(check_token_at(&token, &keys, 1000));
    assert!(check_token_at(&token, &keys, 87400));
    assert!(!check_token_at(&token, &keys, 87401));
}

#[test]
fn username_and_email_log_in_alike() {
    let account = stored("jane.doe_1", "jane@example.org", "Secur3!pass");
    let found = Some((5, account.password_hash));

    let by_username = api().login_at(&login(&account.username, "Secur3!pass"), found.clone(), 1000);
    let by_email = api().login_at(&login(&account.email, "Secur3!pass"), found, 1000);

    assert!(matches!(by_username, LoginResponse::LoggedIn(_)));
    assert_eq!(by_username, by_email);
}

#[test]
fn wrong_password_and_unknown_identifier_are_answered_alike() {
    let account = stored("jane.doe_1", "jane@example.org", "Secur3!pass");

    let wrong_password =
        api().login_at(&login("jane.doe_1", "wrongpass1"), Some((5, account.password_hash)), 1000);
    let unknown = api().login_at(&login("john.doe_1", "wrongpass1"), None, 1000);

    assert_eq!(NO_USER, 0);
    assert_eq!(
        wrong_password,
        LoginResponse::WrongCredentials(ResponseMessage::new("Username/email or password is wrong."))
    );
    assert_eq!(unknown, wrong_password);
}

#[test]
fn weather_needs_a_token_that_is_accepted() {
    let keys = Keys::new(b"secret");
    let token = create_token_at(5, &keys, 1000).expect("token creation failed");
    let address = Some(IpAddress::V4(u32::from_be_bytes([176, 12, 12, 12])));
    let unauthorized = Err(WeatherResponse::Unauthorized(ResponseMessage::new("Unauthorized access.")));

    assert_eq!(api().weather_at::<f64>("", address, 0, 1000), unauthorized);
    assert_eq!(api().weather_at::<f64>(&token, address, 0, 87401), unauthorized);
    assert_eq!(api().weather_at::<f64>(&token, None, 0, 87401), unauthorized);
    assert_eq!(api().weather::<f64>("token", address), unauthorized);
    assert_eq!(
        Api::new(Keys::new(b"another"), false).weather_at::<f64>(&token, address, 0, 1000),
        unauthorized
    );
    assert_eq!(api().weather_at::<f64>(&token, address, 0, 87400), Ok(address.unwrap()));
}

#[test]
fn weather_needs_the_address_of_the_caller() {
    let keys = Keys::new(b"secret");
    let token = create_token_at(5, &keys, 1000).expect("token creation failed");

    assert_eq!(
        api().weather_at::<f64>(&token, None, 0, 1000),
        Err(WeatherResponse::GeolocationQueryFailed(ResponseMessage::new("Could not fetch user IP.")))
    );
}

#[test]
fn address_is_located_as_it_stands() {
    let public = IpAddress::V4(u32::from_be_bytes([176, 12, 12, 12]));

    assert_eq!(get_ip_address(public, false, 5), public);
    assert_eq!(get_ip_address(public, true, 5), public);
    assert_eq!(get_ip_address(IpAddress::V6(77), true, 5), IpAddress::V6(77));
    assert_eq!(get_ip_address(IpAddress::V4(LOOPBACK_V4), false, 5), IpAddress::V4(LOOPBACK_V4));
    assert_eq!(get_ip_address(IpAddress::V6(LOOPBACK_V6), false, 5), IpAddress::V6(LOOPBACK_V6));
}

#[test]
fn loopback_address_is_replaced_from_the_block() {
    let at = |offset| get_ip_address(IpAddress::V4(LOOPBACK_V4), true, offset);

    assert_eq!(IP_BLOCK_START, u32::from_be_bytes([78, 160, 0, 0]));
    assert_eq!(IP_BLOCK_SIZE, 2_097_152);
    assert_eq!(at(0), IpAddress::V4(u32::from_be_bytes([78, 160, 0, 0])));
    assert_eq!(at(258), IpAddress::V4(u32::from_be_bytes([78, 160, 1, 2])));
    assert_eq!(at(IP_BLOCK_SIZE - 1), IpAddress::V4(u32::from_be_bytes([78, 191, 255, 255])));
    assert_eq!(at(IP_BLOCK_SIZE), IpAddress::V4(u32::from_be_bytes([78, 160, 0, 0])));
    assert_eq!(at(u32::MAX), IpAddress::V4(u32::from_be_bytes([78, 191, 255, 255])));
    assert_eq!(
        get_ip_address(IpAddress::V6(LOOPBACK_V6), true, 258),
        IpAddress::V4(u32::from_be_bytes([78, 160, 1, 2]))
    );
}

#[test]
fn loopback_caller_is_located_in_the_block() {
    let keys = Keys::new(b"secret");
    let token = weather_server_lib::authorization::create_token(5, &keys).expect("token creation failed");
    let api = Api::new(keys, true);

    for _ in 0..20 {
        match api.weather::<f64>(&token, Some(IpAddress::V4(LOOPBACK_V4))) {
            Ok(IpAddress::V4(bits)) => {
                assert!(IP_BLOCK_START <= bits);
                assert!(bits - IP_BLOCK_START < IP_BLOCK_SIZE);
            }
            other => panic!("not located in the block: {:?}", other),
        }
    }
}

#[test]
fn failed_geolocation_fetches_no_weather() {
    let located: Result<GeolocationApiResponse<f64>, ClientError> =
        Err(ClientError::ApiInternalError("API returned 404 Not Found".to_owned()));

    assert_eq!(
        weather_located(located),
        Err(WeatherResponse::GeolocationQueryFailed(ResponseMessage::new(
            "Could not fetch user location."
        )))
    );
}

#[test]
fn valid_credentials_always_reach_the_storage() {
    for _ in 0..3 {
        let account = api()
            .register(body("jane.doe_1", "Jane <jane@example.org>", "Secur3!pass"))
            .expect("registration ended before the storage");

        assert_eq!(account.username, "jane.doe_1");
        assert_eq!(account.email, "jane@example.org");
        assert!(account.password_hash.starts_with("$argon2id$v=19$m=15000,t=2,p=1$"));
        assert!(validate("Secur3!pass".to_owned(), Some(account.password_hash)));
    }
}
