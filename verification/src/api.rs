use crate::authorization::{
    check_token_at, create_token_at, current_time, issued_to, signed_token, three_parts,
    token_valid_at, Keys, VALIDITY_SECONDS,
};
use crate::helpers::{is_loopback_address, IpAddress};
use crate::http_client::{ClientError, Coordinate, GeolocationApiResponse, WeatherApiResponse};
use crate::password::{
    argon2_verifies, argon2id_hash, generate_salt, hash_with_salt, hashed_with,
    lemma_begins_as_its_head, phc_string, validate, LONGEST_PASSWORD, MEMORY_COST, PARALLELISM, PHC_PREFIX,
    PLACEHOLDER_HASH, TIME_COST,
};
use crate::queries::SqlError;
use email_address::EmailAddress;
use rand::Rng;
use std::str::FromStr;
use vstd::prelude::*;

verus! {

/// Least number of characters of a username.
pub const USERNAME_MIN: usize = 6;

/// Greatest number of characters of a username.
pub const USERNAME_MAX: usize = 24;

/// Least number of characters of a password.
pub const PASSWORD_MIN: usize = 8;

/// Greatest number of characters of a password.
pub const PASSWORD_MAX: usize = 32;

/// The symbols that a password may hold beside letters and numbers.
pub const PASSWORD_SYMBOLS: &'static str = "~!@$%^&*()_-+={[}]|:',.?/";

/// Said of a username that is too short or too long.
pub const USERNAME_LENGTH_FAULT: &'static str =
    "Username needs to be at least 6 and at most 24 characters";

/// Said of a username that holds a character it may not hold.
pub const USERNAME_CHARACTERS_FAULT: &'static str =
    "Username can only contain letters, numbers, dots and underscores";

/// Said of an email that is no valid address.
pub const EMAIL_FAULT: &'static str =
    "Username can only contain letters, numbers, dots and underscores";

/// Said of a password that is too short or too long.
pub const PASSWORD_LENGTH_FAULT: &'static str =
    "Password needs to be at least 8 and at most 32 characters";

/// Said, with `PASSWORD_SYMBOLS` behind it, of a password that holds a
/// character it may not hold.
pub const PASSWORD_CHARACTERS_FAULT: &'static str =
    "Username can only contain letters, numbers and symbols ";

/// Holds what the request flows work with: the keys that tokens are signed
/// with, and whether a loopback address is replaced before it is located.
pub struct Api {
    keys: Keys,
    substitute_loopback: bool,
}

/// Information used in `register` request body.
#[derive(Debug, Clone, PartialEq, Eq)]
pub struct RegisterBody {
    /// User's username. Has to be unique.
    pub username: String,
    /// User's email. Has to be unique.
    pub email: String,
    /// User's password.
    pub password: String,
}

/// The credentials of a registration that have been found valid.
#[derive(Debug, Clone, PartialEq, Eq)]
pub struct RegisterCredentials {
    /// User's username. Has to be unique.
    pub username: String,
    /// User's email, without a display name. Has to be unique.
    pub email: String,
    /// User's password.
    pub password: String,
}

/// The three texts of a registration.
pub struct CredentialsView {
    pub username: Seq<char>,
    pub email: Seq<char>,
    pub password: Seq<char>,
}

impl View for RegisterBody {
    type V = CredentialsView;

    open spec fn view(&self) -> CredentialsView {
        CredentialsView {
            username: self.username@,
            email: self.email@,
            password: self.password@,
        }
    }
}

impl View for RegisterCredentials {
    type V = CredentialsView;

    open spec fn view(&self) -> CredentialsView {
        CredentialsView {
            username: self.username@,
            email: self.email@,
            password: self.password@,
        }
    }
}

/// Information used in `login` request body.
#[derive(Debug, Clone, PartialEq, Eq)]
pub struct LoginBody {
    /// Can either be user's `username` or `email`.
    pub identifier: String,
    /// User's password
    pub password: String,
}

/// Response of `health_check` call.
#[derive(Debug, Clone, Copy, PartialEq, Eq, Structural)]
pub enum HealthResponse {
    /// Returned on all calls
    Alive,
}

/// A response body that is used to return generic messages to the caller,
/// usually errors
#[derive(Debug, Clone, PartialEq, Eq)]
pub struct ResponseMessage {
    message: String,
}

impl View for ResponseMessage {
    type V = Seq<char>;

    closed spec fn view(&self) -> Seq<char> {
        self.message@
    }
}

impl ResponseMessage {
    /// Creates error message from given string
    pub fn new(message: &str) -> (r: Self)
        ensures
            r@ == message@,
    {
        Self { message: message.to_owned() }
    }

    /// The text of the message.
    pub fn message(&self) -> (text: &str)
        ensures
            text@ == self@,
    {
        self.message.as_str()
    }
}

/// Body of `register` call success response.
#[derive(Debug, Clone, Copy, PartialEq, Eq, Structural)]
pub struct RegisterResponseBody {
    /// ID of registered user.
    pub user_id: u64,
}

/// Body of `login` call success response.
#[derive(Debug, Clone, PartialEq, Eq)]
pub struct LoginResponseBody {
    /// Created token.
    pub token: String,
}

/// Body of `weather` call success response. `N` is the type in which the
/// embedding program holds a number.
#[derive(Debug, Clone, PartialEq)]
pub struct WeatherResponseBody<N> {
    pub temperature: N,
    pub feels_like: N,
    pub condition: String,
    pub last_updated: String,
}

/// Whether a character is a letter or a number, as Unicode has it.
pub uninterp spec fn alphanumeric(c: char) -> bool;

/// The address that an email names, without its display name; `None` for a
/// text that is no valid email.
pub uninterp spec fn email_address_part(text: Seq<char>) -> Option<Seq<char>>;

/// Calls `char::is_alphanumeric` of std. The contract names the outcome
/// `alphanumeric`, a function of the character alone.
#[verifier::external_body]
fn is_alphanumeric(c: char) -> (r: bool)
    ensures
        r == alphanumeric(c),
{
    c.is_alphanumeric()
}

/// Calls `EmailAddress::from_str` of `email_address` and, on an address that
/// parsed, `EmailAddress::email`. The contract names the outcome
/// `email_address_part`, a function of the text alone.
#[verifier::external_body]
fn parse_email(text: &str) -> (r: Option<String>)
    ensures
        email_address_part(text@) == (match r {
            Some(address) => Some(address@),
            None => None,
        }),
{
    EmailAddress::from_str(text).ok().map(|address| address.email())
}

/// Whether a username may hold the character.
pub open spec fn username_char(c: char) -> bool {
    alphanumeric(c) || c == '.' || c == '_'
}

/// Whether a password may hold the character.
pub open spec fn password_char(c: char) -> bool {
    alphanumeric(c) || PASSWORD_SYMBOLS@.contains(c)
}

/// Whether a username is of the right length and holds only characters that
/// it may hold.
pub open spec fn valid_username(username: Seq<char>) -> bool {
    &&& USERNAME_MIN <= username.len() <= USERNAME_MAX
    &&& forall|i: int| 0 <= i < username.len() ==> username_char(#[trigger] username[i])
}

/// Whether a password is of the right length and holds only characters that
/// it may hold.
pub open spec fn valid_password(password: Seq<char>) -> bool {
    &&& PASSWORD_MIN <= password.len() <= PASSWORD_MAX
    &&& forall|i: int| 0 <= i < password.len() ==> password_char(#[trigger] password[i])
}

/// Whether the three texts of a registration are all valid.
pub open spec fn valid_credentials(body: CredentialsView) -> bool {
    &&& valid_username(body.username)
    &&& email_address_part(body.email) is Some
    &&& valid_password(body.password)
}

/// What is said of the first rule that the texts of a registration break,
/// the username's rules first, then the email's, then the password's;
/// `None` where they break none.
pub open spec fn credentials_fault(body: CredentialsView) -> Option<Seq<char>> {
    if !(USERNAME_MIN <= body.username.len() <= USERNAME_MAX) {
        Some(USERNAME_LENGTH_FAULT@)
    } else if !valid_username(body.username) {
        Some(USERNAME_CHARACTERS_FAULT@)
    } else if email_address_part(body.email) is None {
        Some(EMAIL_FAULT@)
    } else if !(PASSWORD_MIN <= body.password.len() <= PASSWORD_MAX) {
        Some(PASSWORD_LENGTH_FAULT@)
    } else if !valid_password(body.password) {
        Some(PASSWORD_CHARACTERS_FAULT@ + PASSWORD_SYMBOLS@)
    } else {
        None
    }
}

/// Checks if a password may hold the symbol.
fn is_password_symbol(c: char) -> (r: bool)
    ensures
        r == PASSWORD_SYMBOLS@.contains(c),
{
    let n = PASSWORD_SYMBOLS.unicode_len();
    let mut i: usize = 0;
    while i < n
        invariant
            n == PASSWORD_SYMBOLS@.len(),
            i <= n,
            forall|j: int| 0 <= j < i ==> PASSWORD_SYMBOLS@[j] != c,
        decreases n - i,
    {
        if PASSWORD_SYMBOLS.get_char(i) == c {
            return true;
        }
        i += 1;
    }
    false
}

/// Checks if the text holds only characters that a username may hold.
fn only_username_chars(text: &str) -> (r: bool)
    ensures
        r == forall|i: int| 0 <= i < text@.len() ==> username_char(#[trigger] text@[i]),
{
    let n = text.unicode_len();
    let mut i: usize = 0;
    while i < n
        invariant
            n == text@.len(),
            i <= n,
            forall|j: int| 0 <= j < i ==> username_char(#[trigger] text@[j]),
        decreases n - i,
    {
        let c = text.get_char(i);
        if !is_alphanumeric(c) && c != '.' && c != '_' {
            return false;
        }
        i += 1;
    }
    true
}

/// Checks if the text holds only characters that a password may hold.
fn only_password_chars(text: &str) -> (r: bool)
    ensures
        r == forall|i: int| 0 <= i < text@.len() ==> password_char(#[trigger] text@[i]),
{
    let n = text.unicode_len();
    let mut i: usize = 0;
    while i < n
        invariant
            n == text@.len(),
            i <= n,
            forall|j: int| 0 <= j < i ==> password_char(#[trigger] text@[j]),
        decreases n - i,
    {
        let c = text.get_char(i);
        if !is_alphanumeric(c) && !is_password_symbol(c) {
            return false;
        }
        i += 1;
    }
    true
}

impl RegisterCredentials {
    /// Checks the texts of a registration, the username first, then the
    /// email, then the password, and hands them back with the email reduced
    /// to its address.
    ///
    /// # Errors
    /// Returns what is said of the first rule that is broken.
    pub fn try_from(body: RegisterBody) -> (r: Result<RegisterCredentials, String>)
        ensures
            match credentials_fault(body@) {
                Some(fault) => r matches Err(said) && said@ == fault,
                None => r matches Ok(credentials) && credentials@ == (CredentialsView {
                    username: body.username@,
                    email: email_address_part(body.email@)->0,
                    password: body.password@,
                }),
            },
            r is Ok <==> valid_credentials(body@),
    {
        let username_length = body.username.as_str().unicode_len();
        if username_length < USERNAME_MIN || username_length > USERNAME_MAX {
            return Err(USERNAME_LENGTH_FAULT.to_owned());
        }
        if !only_username_chars(body.username.as_str()) {
            return Err(USERNAME_CHARACTERS_FAULT.to_owned());
        }
        let email = match parse_email(body.email.as_str()) {
            Some(email) => email,
            None => {
                return Err(EMAIL_FAULT.to_owned());
            },
        };
        let password_length = body.password.as_str().unicode_len();
        if password_length < PASSWORD_MIN || password_length > PASSWORD_MAX {
            return Err(PASSWORD_LENGTH_FAULT.to_owned());
        }
        if !only_password_chars(body.password.as_str()) {
            return Err(PASSWORD_CHARACTERS_FAULT.to_owned().concat(PASSWORD_SYMBOLS));
        }
        Ok(RegisterCredentials { username: body.username, email, password: body.password })
    }
}

/// Said before the fault of credentials that were found invalid.
pub const INVALID_CREDENTIALS: &'static str = "Invalid credentials: ";

/// Said where the username or the email is already registered.
pub const ALREADY_REGISTERED: &'static str = "A user with given credentials already exists.";

/// Said where an account could not be stored.
pub const REGISTRATION_FAILED: &'static str = "Registration failed . Try again.";

/// Said where no token could be made.
pub const LOGIN_FAILED: &'static str = "Login failed.";

/// Said where the identifier is not registered or the password is wrong.
pub const WRONG_CREDENTIALS: &'static str = "Username/email or password is wrong.";

/// Said where the token is not accepted.
pub const UNAUTHORIZED: &'static str = "Unauthorized access.";

/// Said where the caller's address is not known.
pub const NO_ADDRESS: &'static str = "Could not fetch user IP.";

/// Said where the caller's address could not be located.
pub const NO_LOCATION: &'static str = "Could not fetch user location.";

/// Said where the weather could not be fetched.
pub const NO_WEATHER: &'static str = "Could not fetch weather information.";

/// First address of the block that stands in for loopback addresses,
/// `78.160.0.0`.
pub const IP_BLOCK_START: u32 = 0x4EA0_0000;

/// Number of addresses in the block that stands in for loopback addresses.
pub const IP_BLOCK_SIZE: u32 = 2_097_152;

/// The identity that a token is made for where the identifier is not
/// registered.
pub const NO_USER: u64 = 0;

/// An account as it is handed to the storage: the password is hashed.
#[derive(Debug, Clone, PartialEq, Eq)]
pub struct NewAccount {
    pub username: String,
    pub email: String,
    pub password_hash: String,
}

/// Response of `register` call.
#[derive(Debug, Clone, PartialEq, Eq)]
pub enum RegisterResponse {
    /// Returned when registration succeeds.
    Registered(RegisterResponseBody),
    /// Returned when registration credentials are not valid.
    InvalidCredentials(ResponseMessage),
    /// Returned when user with same credentials exists.
    AlreadyRegistered(ResponseMessage),
    /// Returned when persisting the user fails.
    RegistrationFailed(ResponseMessage),
}

/// What a `RegisterResponse` holds.
pub enum RegisterResponseView {
    Registered(u64),
    InvalidCredentials(Seq<char>),
    AlreadyRegistered(Seq<char>),
    RegistrationFailed(Seq<char>),
}

impl View for RegisterResponse {
    type V = RegisterResponseView;

    open spec fn view(&self) -> RegisterResponseView {
        match self {
            RegisterResponse::Registered(body) => RegisterResponseView::Registered(body.user_id),
            RegisterResponse::InvalidCredentials(m) => RegisterResponseView::InvalidCredentials(m@),
            RegisterResponse::AlreadyRegistered(m) => RegisterResponseView::AlreadyRegistered(m@),
            RegisterResponse::RegistrationFailed(m) => RegisterResponseView::RegistrationFailed(m@),
        }
    }
}

/// Response of `login` call.
#[derive(Debug, Clone, PartialEq, Eq)]
pub enum LoginResponse {
    /// Returned when user successfully logs in.
    LoggedIn(LoginResponseBody),
    /// Returned when such user does not exist or password does not match.
    WrongCredentials(ResponseMessage),
    /// Returned when token creation fails.
    CouldNotCreateToken(ResponseMessage),
}

/// What a `LoginResponse` holds.
pub enum LoginResponseView {
    LoggedIn(Seq<char>),
    WrongCredentials(Seq<char>),
    CouldNotCreateToken(Seq<char>),
}

impl View for LoginResponse {
    type V = LoginResponseView;

    open spec fn view(&self) -> LoginResponseView {
        match self {
            LoginResponse::LoggedIn(body) => LoginResponseView::LoggedIn(body.token@),
            LoginResponse::WrongCredentials(m) => LoginResponseView::WrongCredentials(m@),
            LoginResponse::CouldNotCreateToken(m) => LoginResponseView::CouldNotCreateToken(m@),
        }
    }
}

/// Response of `weather` call.
#[derive(Debug, Clone, PartialEq)]
pub enum WeatherResponse<N> {
    /// Returned when weather information is successfully obtained.
    Success(WeatherResponseBody<N>),
    /// Returned when no token is provided or provided token is invalid.
    Unauthorized(ResponseMessage),
    /// Returned when call to geolocation API fails.
    GeolocationQueryFailed(ResponseMessage),
    /// Returned when call to weather API fails.
    WeatherQueryFailed(ResponseMessage),
}

/// What a `WeatherResponseBody` holds.
pub struct WeatherView<N> {
    pub temperature: N,
    pub feels_like: N,
    pub condition: Seq<char>,
    pub last_updated: Seq<char>,
}

/// What a `WeatherResponse` holds.
pub enum WeatherResponseView<N> {
    Success(WeatherView<N>),
    Unauthorized(Seq<char>),
    GeolocationQueryFailed(Seq<char>),
    WeatherQueryFailed(Seq<char>),
}

impl<N> View for WeatherResponseBody<N> {
    type V = WeatherView<N>;

    open spec fn view(&self) -> WeatherView<N> {
        WeatherView {
            temperature: self.temperature,
            feels_like: self.feels_like,
            condition: self.condition@,
            last_updated: self.last_updated@,
        }
    }
}

impl<N> View for WeatherResponse<N> {
    type V = WeatherResponseView<N>;

    open spec fn view(&self) -> WeatherResponseView<N> {
        match self {
            WeatherResponse::Success(body) => WeatherResponseView::Success(body@),
            WeatherResponse::Unauthorized(m) => WeatherResponseView::Unauthorized(m@),
            WeatherResponse::GeolocationQueryFailed(m) => WeatherResponseView::GeolocationQueryFailed(
                m@,
            ),
            WeatherResponse::WeatherQueryFailed(m) => WeatherResponseView::WeatherQueryFailed(m@),
        }
    }
}

/// The weather that a reply of the weather API reports.
pub open spec fn reported_weather<N>(reply: WeatherApiResponse<N>) -> WeatherView<N> {
    WeatherView {
        temperature: reply.current.temp_c,
        feels_like: reply.current.feelslike_c,
        condition: reply.current.condition.text@,
        last_updated: reply.current.last_updated@,
    }
}

/// The response to a registration whose credentials are valid and whose
/// password was hashed, from what the storage made of the insert.
pub open spec fn stored_response(stored: Result<u64, SqlError>) -> RegisterResponseView {
    match stored {
        Ok(user_id) => RegisterResponseView::Registered(user_id),
        Err(SqlError::UniqueConstraintViolation) => RegisterResponseView::AlreadyRegistered(
            ALREADY_REGISTERED@,
        ),
        Err(SqlError::Other) => RegisterResponseView::RegistrationFailed(REGISTRATION_FAILED@),
    }
}

/// The response to a login, from whether the password verified and, where
/// it did, the token that was made: `None` where none could be.
pub open spec fn login_response_of(verified: bool, token: Option<Seq<char>>) -> LoginResponseView {
    if !verified {
        LoginResponseView::WrongCredentials(WRONG_CREDENTIALS@)
    } else {
        match token {
            Some(token) => LoginResponseView::LoggedIn(token),
            None => LoginResponseView::CouldNotCreateToken(LOGIN_FAILED@),
        }
    }
}

/// The identity that a token is made for: that of the account that the
/// storage found, or `NO_USER` where it found none.
pub open spec fn found_identity(found: Option<(u64, String)>) -> u64 {
    match found {
        Some((user_id, _)) => user_id,
        None => NO_USER,
    }
}

/// The hash that the password is verified against: that of the account that
/// the storage found, or the placeholder where it found none.
pub open spec fn found_hash(found: Option<(u64, String)>) -> Seq<char> {
    match found {
        Some((_, hash)) => hash@,
        None => PLACEHOLDER_HASH@,
    }
}

/// What `Api::login_at` states of its response: it is the response to the
/// outcome of verifying the password against the hash that was found, or
/// the placeholder, and of signing a token for the identity that was found;
/// a token that it holds is of three parts and carries the claims of one
/// issued to that identity at `now`; and a password that verified is
/// answered with `LoggedIn`.
pub open spec fn login_result(
    secret: Seq<u8>,
    password: Seq<char>,
    found: Option<(u64, String)>,
    now: u64,
    response: LoginResponseView,
) -> bool {
    &&& response == login_response_of(
        argon2_verifies(password, found_hash(found)),
        signed_token(secret, found_identity(found), (now + VALIDITY_SECONDS) as u64),
    )
    &&& response matches LoginResponseView::LoggedIn(token) ==> three_parts(token) && issued_to(
        secret,
        token,
        found_identity(found),
        now,
    )
    &&& argon2_verifies(password, found_hash(found)) ==> response is LoggedIn
}

/// The address that is located for a caller: the caller's own, or, where
/// loopback addresses are replaced and the caller's is one, the address at
/// `offset` in the block that stands in for them, counted round the block.
pub open spec fn located_address(address: IpAddress, substitute: bool, offset: u32) -> IpAddress {
    if substitute && (address == IpAddress::V4(crate::helpers::LOOPBACK_V4) || address
        == IpAddress::V6(crate::helpers::LOOPBACK_V6)) {
        IpAddress::V4((IP_BLOCK_START + offset % IP_BLOCK_SIZE) as u32)
    } else {
        address
    }
}

/// A step of a request for the weather, with the response that ends the
/// request taken by its view.
pub open spec fn step_view<T, N>(step: Result<T, WeatherResponse<N>>) -> Result<
    T,
    WeatherResponseView<N>,
> {
    match step {
        Ok(next) => Ok(next),
        Err(response) => Err(response@),
    }
}

/// How a request for the weather starts: with the address that is located,
/// where the token is accepted and the caller's address is known.
pub open spec fn weather_start<N>(
    authorized: bool,
    address: Option<IpAddress>,
    substitute: bool,
    offset: u32,
) -> Result<IpAddress, WeatherResponseView<N>> {
    if !authorized {
        Err(WeatherResponseView::Unauthorized(UNAUTHORIZED@))
    } else {
        match address {
            Some(a) => Ok(located_address(a, substitute, offset)),
            None => Err(WeatherResponseView::GeolocationQueryFailed(NO_ADDRESS@)),
        }
    }
}

/// How a request for the weather goes on from the geolocation API's answer:
/// with the coordinate that the weather is fetched for, where the call
/// succeeded.
pub open spec fn weather_after_location<N>(
    located: Result<GeolocationApiResponse<N>, ClientError>,
) -> Result<Coordinate<N>, WeatherResponseView<N>> {
    match located {
        Ok(place) => Ok(Coordinate { latitude: place.latitude, longitude: place.longitude }),
        Err(_) => Err(WeatherResponseView::GeolocationQueryFailed(NO_LOCATION@)),
    }
}

/// How a request for the weather ends on the weather API's answer.
pub open spec fn weather_after_fetch<N>(
    fetched: Result<WeatherApiResponse<N>, ClientError>,
) -> WeatherResponseView<N> {
    match fetched {
        Ok(reply) => WeatherResponseView::Success(reported_weather(reply)),
        Err(_) => WeatherResponseView::WeatherQueryFailed(NO_WEATHER@),
    }
}

/// The response to a request for the weather, from whether the token is
/// accepted, the caller's address, and the answers of the two APIs. An
/// answer stands for what the API would say if it were asked: the steps are
/// taken in turn, and the first that ends the request settles the response.
pub open spec fn weather_outcome<N>(
    authorized: bool,
    address: Option<IpAddress>,
    substitute: bool,
    offset: u32,
    located: Result<GeolocationApiResponse<N>, ClientError>,
    fetched: Result<WeatherApiResponse<N>, ClientError>,
) -> WeatherResponseView<N> {
    match weather_start::<N>(authorized, address, substitute, offset) {
        Err(response) => response,
        Ok(_) => match weather_after_location(located) {
            Err(response) => response,
            Ok(_) => weather_after_fetch(fetched),
        },
    }
}

/// Calls `Rng::gen_range` of `rand` on the thread's random number generator
/// with the range from 0 up to, and without, `bound`. The contract says that
/// the result lies in that range; which number it is, is random. An empty
/// range, on which `gen_range` panics, is left out.
#[verifier::external_body]
fn random_below(bound: u32) -> (r: u32)
    requires
        bound > 0,
    ensures
        r < bound,
{
    rand::thread_rng().gen_range(0..bound)
}

/// The address that is located for a caller, given the offset at which a
/// loopback address is replaced.
pub fn get_ip_address(address: IpAddress, substitute: bool, offset: u32) -> (r: IpAddress)
    ensures
        r == located_address(address, substitute, offset),
{
    if substitute && is_loopback_address(&address) {
        IpAddress::V4(IP_BLOCK_START + offset % IP_BLOCK_SIZE)
    } else {
        address
    }
}

/// The response to a registration that reached the storage.
pub fn registered(stored: Result<u64, SqlError>) -> (r: RegisterResponse)
    ensures
        r@ == stored_response(stored),
{
    match stored {
        Ok(user_id) => RegisterResponse::Registered(RegisterResponseBody { user_id }),
        Err(SqlError::UniqueConstraintViolation) => RegisterResponse::AlreadyRegistered(
            ResponseMessage::new(ALREADY_REGISTERED),
        ),
        Err(SqlError::Other) => RegisterResponse::RegistrationFailed(
            ResponseMessage::new(REGISTRATION_FAILED),
        ),
    }
}

/// The response to a login, from whether the password verified and, where
/// it did, the token that was made: `None` where none could be.
pub fn login_response(verified: bool, token: Option<String>) -> (r: LoginResponse)
    ensures
        r@ == login_response_of(
            verified,
            match token {
                Some(t) => Some(t@),
                None => None,
            },
        ),
{
    if !verified {
        LoginResponse::WrongCredentials(ResponseMessage::new(WRONG_CREDENTIALS))
    } else {
        match token {
            Some(token) => LoginResponse::LoggedIn(LoginResponseBody { token }),
            None => LoginResponse::CouldNotCreateToken(ResponseMessage::new(LOGIN_FAILED)),
        }
    }
}

/// Goes on from the geolocation API's answer: with the coordinate that the
/// weather is fetched for, or, where the call failed, with the response
/// that ends the request. No weather is fetched then.
pub fn weather_located<N>(located: Result<GeolocationApiResponse<N>, ClientError>) -> (r: Result<
    Coordinate<N>,
    WeatherResponse<N>,
>)
    ensures
        step_view(r) == weather_after_location(located),
{
    match located {
        Ok(place) => Ok(Coordinate { latitude: place.latitude, longitude: place.longitude }),
        Err(_) => Err(WeatherResponse::GeolocationQueryFailed(ResponseMessage::new(NO_LOCATION))),
    }
}

/// The response that ends a request for the weather, from the weather API's
/// answer.
pub fn weather_fetched<N>(fetched: Result<WeatherApiResponse<N>, ClientError>) -> (r:
    WeatherResponse<N>)
    ensures
        r@ == weather_after_fetch(fetched),
{
    match fetched {
        Ok(reply) => WeatherResponse::Success(
            WeatherResponseBody {
                temperature: reply.current.temp_c,
                feels_like: reply.current.feelslike_c,
                condition: reply.current.condition.text,
                last_updated: reply.current.last_updated,
            },
        ),
        Err(_) => WeatherResponse::WeatherQueryFailed(ResponseMessage::new(NO_WEATHER)),
    }
}

impl Api {
    /// The secret of the keys that tokens are signed with.
    pub closed spec fn secret(&self) -> Seq<u8> {
        self.keys@
    }

    /// Whether a loopback address is replaced before it is located.
    pub closed spec fn substitutes_loopback(&self) -> bool {
        self.substitute_loopback
    }

    /// Creates an instance of the API with the given keys. Where
    /// `substitute_loopback` is set, a caller at a loopback address is
    /// located at an address of a public block instead: the geolocation API
    /// refuses private addresses.
    pub fn new(keys: Keys, substitute_loopback: bool) -> (api: Self)
        ensures
            api.secret() == keys@,
            api.substitutes_loopback() == substitute_loopback,
    {
        Self { keys, substitute_loopback }
    }

    /// Always answers that the server is alive.
    pub fn health_check(&self) -> (r: HealthResponse)
        ensures
            r == HealthResponse::Alive,
    {
        HealthResponse::Alive
    }

    /// Starts a registration with the given salt: checks the credentials
    /// and hashes the password. Gives the account that is to be stored, or
    /// the response that ends the request.
    ///
    /// The account is handed to the storage, and `registered` says what is
    /// answered to what the storage made of it.
    pub fn register_with_salt(&self, body: RegisterBody, salt: &str) -> (r: Result<
        NewAccount,
        RegisterResponse,
    >)
        ensures
            match credentials_fault(body@) {
                Some(fault) => r matches Err(response) && response@
                    == RegisterResponseView::InvalidCredentials(INVALID_CREDENTIALS@ + fault),
                None => match argon2id_hash(
                    body.password@,
                    salt@,
                    MEMORY_COST,
                    TIME_COST,
                    PARALLELISM,
                ) {
                    Some(hash) => r matches Ok(account) && account.username@ == body.username@
                        && account.email@ == email_address_part(body.email@)->0
                        && account.password_hash@ == hash && argon2_verifies(
                        body.password@,
                        hash,
                    ) && phc_string(hash, PHC_PREFIX@ + salt@ + seq!['$']),
                    None => r matches Err(response) && response@
                        == RegisterResponseView::RegistrationFailed(REGISTRATION_FAILED@),
                },
            },
    {
        let credentials = match RegisterCredentials::try_from(body) {
            Ok(credentials) => credentials,
            Err(fault) => {
                let said = INVALID_CREDENTIALS.to_owned().concat(fault.as_str());
                return Err(
                    RegisterResponse::InvalidCredentials(ResponseMessage::new(said.as_str())),
                );
            },
        };
        match hash_with_salt(credentials.password.as_str(), salt) {
            Some(password_hash) => Ok(
                NewAccount {
                    username: credentials.username,
                    email: credentials.email,
                    password_hash,
                },
            ),
            None => Err(
                RegisterResponse::RegistrationFailed(ResponseMessage::new(REGISTRATION_FAILED)),
            ),
        }
    }

    /// Starts a registration: checks the credentials and hashes the
    /// password with a fresh random salt. Gives the account that is to be
    /// stored, or the response that ends the request.
    ///
    /// Valid credentials always give an account: the request ends here only
    /// on credentials that break a rule. The hash of the account is a PHC
    /// string, and so another text than the password.
    pub fn register(&self, body: RegisterBody) -> (r: Result<NewAccount, RegisterResponse>)
        ensures
            match credentials_fault(body@) {
                Some(fault) => r matches Err(response) && response@
                    == RegisterResponseView::InvalidCredentials(INVALID_CREDENTIALS@ + fault),
                None => r matches Ok(account) && account.username@ == body.username@
                    && account.email@ == email_address_part(body.email@)->0 && argon2_verifies(
                    body.password@,
                    account.password_hash@,
                ) && PHC_PREFIX@.is_prefix_of(account.password_hash@) && account.password_hash@
                    != body.password@ && exists|salt: Seq<char>| #[trigger]
                    hashed_with(body.password@, salt, Some(account.password_hash@)),
            },
    {
        let salt = generate_salt();
        let r = self.register_with_salt(body, salt.as_str());
        proof {
            if credentials_fault(body@) is None {
                let head = PHC_PREFIX@ + salt@ + seq!['$'];
                assert(head.subrange(0, PHC_PREFIX@.len() as int) =~= PHC_PREFIX@);
                assert(body.password@.len() <= LONGEST_PASSWORD);
                assert(argon2id_hash(
                    body.password@,
                    salt@,
                    MEMORY_COST,
                    TIME_COST,
                    PARALLELISM,
                ) is Some);
                let hash = r->Ok_0.password_hash@;
                assert(hashed_with(body.password@, salt@, Some(hash)));
                lemma_begins_as_its_head(hash, head, PHC_PREFIX@);
                assert(hash.len() > body.password@.len());
            }
        }
        r
    }

    /// Answers a login at the instant `now`, given the identity and the
    /// hash of the account that the storage found for the identifier, if it
    /// found one.
    ///
    /// The password is verified whether or not an account was found: against
    /// its hash, or against the placeholder. A token is made only where the
    /// password verified.
    pub fn login_at(&self, body: &LoginBody, found: Option<(u64, String)>, now: u64) -> (r:
        LoginResponse)
        requires
            now + VALIDITY_SECONDS <= u64::MAX,
        ensures
            login_result(self.secret(), body.password@, found, now, r@),
    {
        let (user_id, hash) = match found {
            Some((user_id, hash)) => (user_id, Some(hash)),
            None => (NO_USER, None),
        };
        let verified = validate(body.password.clone(), hash);
        if !verified {
            return login_response(false, None);
        }
        match create_token_at(user_id, &self.keys, now) {
            Ok(token) => login_response(true, Some(token)),
            Err(_) => login_response(true, None),
        }
    }

    /// Answers a login, given the identity and the hash of the account that
    /// the storage found for the identifier, if it found one.
    pub fn login(&self, body: &LoginBody, found: Option<(u64, String)>) -> (r: LoginResponse)
        ensures
            exists|now: u64| login_result(self.secret(), body.password@, found, now, r@),
    {
        let now = current_time();
        let r = self.login_at(body, found, now);
        proof {
            assert(login_result(self.secret(), body.password@, found, now, r@));
        }
        r
    }

    /// Starts a request for the weather at the instant `now`: gives the
    /// address that is to be located, or the response that ends the request.
    /// `offset` picks the address that stands in for a loopback address.
    pub fn weather_at<N>(&self, token: &str, address: Option<IpAddress>, offset: u32, now: u64) -> (r:
        Result<IpAddress, WeatherResponse<N>>)
        ensures
            step_view(r) == weather_start::<N>(
                token_valid_at(self.secret(), token@, now),
                address,
                self.substitutes_loopback(),
                offset,
            ),
    {
        if !check_token_at(token, &self.keys, now) {
            return Err(WeatherResponse::Unauthorized(ResponseMessage::new(UNAUTHORIZED)));
        }
        match address {
            Some(address) => Ok(get_ip_address(address, self.substitute_loopback, offset)),
            None => Err(WeatherResponse::GeolocationQueryFailed(ResponseMessage::new(NO_ADDRESS))),
        }
    }

    /// Starts a request for the weather: gives the address that is to be
    /// located, or the response that ends the request.
    pub fn weather<N>(&self, token: &str, address: Option<IpAddress>) -> (r: Result<
        IpAddress,
        WeatherResponse<N>,
    >)
        ensures
            exists|now: u64, offset: u32|
                offset < IP_BLOCK_SIZE && step_view(r) == weather_start::<N>(
                    token_valid_at(self.secret(), token@, now),
                    address,
                    self.substitutes_loopback(),
                    offset,
                ),
    {
        let now = current_time();
        let offset = random_below(IP_BLOCK_SIZE);
        let r = self.weather_at(token, address, offset, now);
        proof {
            assert(offset < IP_BLOCK_SIZE && step_view(r) == weather_start::<N>(
                token_valid_at(self.secret(), token@, now),
                address,
                self.substitutes_loopback(),
                offset,
            ));
        }
        r
    }
}

/// Logging in with the password that an account was registered with is
/// answered with `LoggedIn`, and the token is accepted at every instant up
/// to its expiration.
///
/// `hash` is the hash that `Api::register` handed to the storage, of which
/// it states that the password verifies against it; `response` is what
/// `Api::login_at` answers when the storage finds that hash.
pub proof fn lemma_login_after_registration(
    secret: Seq<u8>,
    password: Seq<char>,
    user_id: u64,
    hash: String,
    now: u64,
    later: u64,
    response: LoginResponseView,
)
    requires
        argon2_verifies(password, hash@),
        login_result(secret, password, Some((user_id, hash)), now, response),
        later <= now + VALIDITY_SECONDS,
    ensures
        response matches LoginResponseView::LoggedIn(token) && token_valid_at(
            secret,
            token,
            later,
        ) && issued_to(secret, token, user_id, now),
{
}

/// A login is answered by the password and by what the storage found, not
/// by the identifier: two logins with one password, for which the storage
/// finds one account, once by its username and once by its email, are
/// answered alike, and with `LoggedIn` where the password verifies.
pub proof fn lemma_login_by_username_or_email(
    secret: Seq<u8>,
    by_username: LoginBody,
    by_email: LoginBody,
    found: Option<(u64, String)>,
    now: u64,
    first: LoginResponseView,
    second: LoginResponseView,
)
    requires
        by_username.password@ == by_email.password@,
        login_result(secret, by_username.password@, found, now, first),
        login_result(secret, by_email.password@, found, now, second),
    ensures
        first == second,
        argon2_verifies(by_username.password@, found_hash(found)) ==> first is LoggedIn,
{
}

/// A wrong password is answered alike whether or not the identifier is
/// registered: with `WrongCredentials` and the same message. Left out is a
/// password that verifies against the placeholder hash.
pub proof fn lemma_wrong_password_hides_existence(
    secret: Seq<u8>,
    password: Seq<char>,
    user_id: u64,
    hash: String,
    now: u64,
    unregistered: LoginResponseView,
    registered: LoginResponseView,
)
    requires
        !argon2_verifies(password, PLACEHOLDER_HASH@),
        !argon2_verifies(password, hash@),
        login_result(secret, password, None, now, unregistered),
        login_result(secret, password, Some((user_id, hash)), now, registered),
    ensures
        unregistered == LoginResponseView::WrongCredentials(WRONG_CREDENTIALS@),
        registered == unregistered,
{
}

/// A request for the weather is answered with `Success` exactly when the
/// token is accepted, the caller's address is known, and both APIs answer;
/// it then holds what the weather API reported, field by field. Each
/// failure is answered with the response of the first step that failed.
pub proof fn lemma_weather_outcome<N>(
    authorized: bool,
    address: Option<IpAddress>,
    substitute: bool,
    offset: u32,
    located: Result<GeolocationApiResponse<N>, ClientError>,
    fetched: Result<WeatherApiResponse<N>, ClientError>,
)
    ensures
        ({
            let outcome = weather_outcome(authorized, address, substitute, offset, located, fetched);
            if !authorized {
                outcome == WeatherResponseView::<N>::Unauthorized(UNAUTHORIZED@)
            } else if address is None {
                outcome == WeatherResponseView::<N>::GeolocationQueryFailed(NO_ADDRESS@)
            } else if located is Err {
                outcome == WeatherResponseView::<N>::GeolocationQueryFailed(NO_LOCATION@)
            } else if fetched is Err {
                outcome == WeatherResponseView::<N>::WeatherQueryFailed(NO_WEATHER@)
            } else {
                outcome == WeatherResponseView::Success(reported_weather(fetched->Ok_0))
            }
        }),
{
}

/// Where the token is not accepted, the caller's address is not known, or
/// locating it failed, the response does not depend on the weather API: the
/// request ends before the weather is fetched.
pub proof fn lemma_weather_is_fetched_last<N>(
    authorized: bool,
    address: Option<IpAddress>,
    substitute: bool,
    offset: u32,
    located: Result<GeolocationApiResponse<N>, ClientError>,
    fetched: Result<WeatherApiResponse<N>, ClientError>,
    other: Result<WeatherApiResponse<N>, ClientError>,
)
    requires
        !authorized || address is None || located is Err,
    ensures
        weather_outcome(authorized, address, substitute, offset, located, fetched)
            == weather_outcome(authorized, address, substitute, offset, located, other),
        weather_after_location(located) is Err || weather_start::<N>(
            authorized,
            address,
            substitute,
            offset,
        ) is Err,
{
}

} // verus!
