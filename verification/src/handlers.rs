//! Rules of the server's request handlers: what a request must hold, which
//! error answers it otherwise, and how credentials are made. The handlers
//! themselves only read and write the database and the frame files around
//! these decisions.

use crate::api_error::{is_bad_request, is_internal, is_not_found, is_unauthorized, ApiError};
use crate::images::{
    crop_to_fit, fitted_jpeg, jpeg_decoded_size, resize_fits, CropError, DECODABLE_PIXELS, MAX_DIMENSION,
    MAX_JPEG_SIDE,
};
use crate::text::{
    ascii_upper, decimal, has_prefix, push_char, push_decimal, strip_prefix, trim, trimmed,
    unicode_uppercase,
};
use rand::Rng;
use vstd::prelude::*;
use vstd::string::*;

verus! {

/// Longest camera name, in bytes of UTF-8.
pub const MAX_NAME_BYTES: usize = 100;

/// Length of a pairing code.
pub const CODE_LEN: usize = 6;

/// Length of upload and view tokens.
pub const TOKEN_LEN: usize = 40;

/// How many fresh pairing codes registration tries before it gives up.
pub const REGISTER_ATTEMPTS: u32 = 5;

/// Characters of pairing codes: no look-alikes (0/O, 1/I), since people
/// type the code by hand.
pub const CODE_ALPHABET: &'static str = "ABCDEFGHJKLMNPQRSTUVWXYZ23456789";

// ---------------------------------------------------------------- names

/// A camera name of 1 to 100 bytes of UTF-8. (The limit counts bytes, as
/// `str::len` does, although the error message speaks of characters.)
pub open spec fn acceptable_camera_name(name: Seq<char>) -> bool {
    &&& name.len() > 0
    &&& vstd::utf8::encode_utf8(name).len() <= MAX_NAME_BYTES
}

/// The camera name that registration stores for a requested name: trimmed,
/// and refused unless it has 1 to 100 bytes.
pub fn validate_camera_name(name: &str) -> (r: Result<String, ApiError>)
    ensures
        r is Ok <==> acceptable_camera_name(trimmed(name@)),
        r is Ok <==> (trimmed(name@).len() > 0 && vstd::utf8::encode_utf8(trimmed(name@)).len()
            <= 100),
        r matches Ok(n) ==> n@ == trimmed(name@),
        r matches Err(e) ==> is_bad_request(
            e,
            "invalid_name"@,
            "имя камеры должно быть от 1 до 100 символов"@,
        ),
{
    let trimmed = trim(name);
    let byte_len = trimmed.as_bytes().len();
    if trimmed.is_empty() || byte_len > MAX_NAME_BYTES {
        return Err(
            ApiError::bad_request("invalid_name", "имя камеры должно быть от 1 до 100 символов"),
        );
    }
    Ok(String::from_str(trimmed))
}

/// The name rule: a camera name is taken exactly when, once its leading
/// and trailing whitespace is trimmed, it is not empty and its UTF-8 form
/// has at most 100 bytes; nothing else about its characters matters (inner
/// spaces, Cyrillic, digits are all fine). The name stored is the trimmed
/// one.
pub proof fn lemma_camera_name_rule(name: Seq<char>)
    ensures
        acceptable_camera_name(trimmed(name)) <==> (trimmed(name).len() > 0
            && vstd::utf8::encode_utf8(trimmed(name)).len() <= 100),
{
}

// ---------------------------------------------------------------- uploads

/// The token of an `Authorization: Bearer <token>` header, given the
/// header's value where it is present and readable as text.
pub fn bearer_token(authorization: Option<&str>) -> (r: Result<&str, ApiError>)
    ensures
        r is Ok <==> (authorization matches Some(v) && has_prefix(v@, "Bearer "@)),
        r matches Ok(t) ==> t@ == authorization->0@.subrange(
            "Bearer "@.len() as int,
            authorization->0@.len() as int,
        ),
        r matches Err(e) ==> is_unauthorized(
            e,
            "missing_token"@,
            "нужен заголовок Authorization: Bearer …"@,
        ),
{
    let stripped = match authorization {
        Some(v) => strip_prefix(v, "Bearer "),
        None => None,
    };
    match stripped {
        Some(t) => Ok(t),
        None => Err(
            ApiError::unauthorized("missing_token", "нужен заголовок Authorization: Bearer …"),
        ),
    }
}

/// Whether bytes begin as a JPEG file does (the SOI marker `FF D8`).
pub open spec fn starts_as_jpeg(body: Seq<u8>) -> bool {
    body.len() >= 2 && body[0] == 0xFF && body[1] == 0xD8
}

/// Whether an upload looks like a JPEG. Decoding every upload would cost
/// CPU for nothing; the magic bytes are enough to turn garbage away, and the
/// frame is decoded when a wallpaper is made from it.
pub fn is_jpeg(body: &[u8]) -> (b: bool)
    ensures
        b == starts_as_jpeg(body@),
{
    body.len() >= 2 && body[0] == 0xFF && body[1] == 0xD8
}

/// Admission of a frame upload, given the upload token stored for the
/// camera (`None` where the camera does not exist), the token presented,
/// and the body. An unknown camera and a wrong token get the same answer,
/// so that probing does not tell which camera ids exist.
pub fn check_upload(stored_token: Option<String>, token: &str, body: &[u8]) -> (r: Result<(), ApiError>)
    ensures
        r is Ok <==> (stored_token matches Some(s) && s@ == token@) && starts_as_jpeg(body@),
        !(stored_token matches Some(s) && s@ == token@) ==> (r matches Err(e) && is_unauthorized(
            e,
            "invalid_upload_token"@,
            "неизвестная камера или неверный токен"@,
        )),
        (stored_token matches Some(s) && s@ == token@) && !starts_as_jpeg(body@) ==> (r matches Err(
            e,
        ) && is_bad_request(e, "not_a_jpeg"@, "тело запроса не похоже на JPEG"@)),
{
    let valid = match stored_token {
        Some(s) => s == String::from_str(token),
        None => false,
    };
    if !valid {
        return Err(
            ApiError::unauthorized("invalid_upload_token", "неизвестная камера или неверный токен"),
        );
    }
    if !is_jpeg(body) {
        return Err(ApiError::bad_request("not_a_jpeg", "тело запроса не похоже на JPEG"));
    }
    Ok(())
}

// ---------------------------------------------------------------- pairing

/// The pairing code as it is looked up: trimmed and upper-cased, so that
/// people may type it in any case.
pub open spec fn spec_normalize_pairing_code(code: Seq<char>) -> Seq<char> {
    unicode_uppercase(trimmed(code))
}

/// Normalises a typed pairing code for lookup.
pub fn normalize_pairing_code(code: &str) -> (r: String)
    ensures
        r@ == spec_normalize_pairing_code(code@),
        is_pairing_code(ascii_upper(code@)) ==> r@ == ascii_upper(code@),
{
    let trimmed_code = trim(code);
    proof {
        if is_pairing_code(ascii_upper(code@)) {
            lemma_case_variant_of_code(code@);
        }
    }
    trimmed_code.to_uppercase()
}

/// A character that may stand in a pairing code.
pub open spec fn is_code_char(c: char) -> bool {
    CODE_ALPHABET@.contains(c)
}

/// A pairing code: `CODE_LEN` characters of `CODE_ALPHABET`.
pub open spec fn is_pairing_code(s: Seq<char>) -> bool {
    s.len() == CODE_LEN && forall|i: int| 0 <= i < s.len() ==> is_code_char(#[trigger] s[i])
}

/// Pairing codes hold no characters that look alike: no `0`, `O`, `1` or
/// `I`.
pub proof fn lemma_code_alphabet_unambiguous(c: char)
    requires
        is_code_char(c),
    ensures
        c != '0' && c != 'O' && c != '1' && c != 'I',
{
    reveal_strlit("ABCDEFGHJKLMNPQRSTUVWXYZ23456789");
    let k = choose|k: int| 0 <= k < CODE_ALPHABET@.len() && CODE_ALPHABET@[k] == c;
    assert(0 <= k < 32);
}

proof fn lemma_code_chars()
    ensures
        forall|c: char| #[trigger]
            is_code_char(c) ==> ('A' <= c <= 'Z' || '2' <= c <= '9'),
{
    reveal_strlit("ABCDEFGHJKLMNPQRSTUVWXYZ23456789");
    assert forall|c: char| #[trigger] is_code_char(c) implies ('A' <= c <= 'Z' || '2' <= c <= '9') by {
        let k = choose|k: int| 0 <= k < CODE_ALPHABET@.len() && CODE_ALPHABET@[k] == c;
        assert(0 <= k < 32);
    }
}

/// A string whose ASCII upper case is a pairing code is that code typed in
/// some mix of cases: it is ASCII and has no whitespace at its ends.
proof fn lemma_case_variant_of_code(typed: Seq<char>)
    requires
        is_pairing_code(ascii_upper(typed)),
    ensures
        trimmed(typed) == typed,
        vstd::utf8::is_ascii_chars(typed),
{
    lemma_code_chars();
    let code = ascii_upper(typed);
    assert forall|i: int| 0 <= i < typed.len() implies ('a' <= #[trigger] typed[i] <= 'z' || 'A'
        <= typed[i] <= 'Z' || '2' <= typed[i] <= '9') by {
        assert(is_code_char(code[i]));
    }
    assert(typed.len() > 0);
    assert(!crate::text::is_unicode_whitespace(typed[0]));
    assert(crate::text::trim_start(typed) == typed);
    assert(!crate::text::is_unicode_whitespace(typed.last()));
    assert(crate::text::trim_end(typed) == typed);
}

/// Answer to a pairing code that no camera has.
pub fn unknown_pairing_code() -> (e: ApiError)
    ensures
        is_not_found(e, "invalid_pairing_code"@, "камера с таким кодом не найдена"@),
{
    ApiError::not_found("invalid_pairing_code", "камера с таким кодом не найдена")
}

// ---------------------------------------------------------------- wallpapers

/// Answer to a view token that does not exist.
pub fn unknown_view_token() -> (e: ApiError)
    ensures
        is_not_found(e, "invalid_view_token"@, "токен не найден"@),
{
    ApiError::not_found("invalid_view_token", "токен не найден")
}

/// Answer to a wallpaper request for a camera that has sent no frame yet.
pub fn no_frame_yet() -> (e: ApiError)
    ensures
        is_not_found(e, "no_frame_yet"@, "камера ещё не прислала ни одного кадра"@),
{
    ApiError::not_found("no_frame_yet", "камера ещё не прислала ни одного кадра")
}

/// Query parameters of a wallpaper request.
#[derive(Debug, Clone, Copy)]
pub struct WallpaperParams {
    pub w: Option<u32>,
    pub h: Option<u32>,
}

/// A wallpaper width or height that is served: `1..=MAX_DIMENSION`.
pub open spec fn dimension_in_range(x: u32) -> bool {
    1 <= x <= MAX_DIMENSION
}

/// The size that a wallpaper request asks for, from its `w` and `h` query
/// parameters: both or neither (then the frame is served as it is), each in
/// `1..=MAX_DIMENSION`.
pub fn wallpaper_size(w: Option<u32>, h: Option<u32>) -> (r: Result<Option<(u32, u32)>, ApiError>)
    ensures
        (w is None && h is None) ==> r matches Ok(None),
        (w is Some && h is Some && dimension_in_range(w->0) && dimension_in_range(h->0)) ==> (r matches Ok(
            Some(p),
        ) && p == (w->0, h->0)),
        (w is Some && h is Some && !(dimension_in_range(w->0) && dimension_in_range(h->0))) ==> (r matches Err(
            e,
        ) && is_bad_request(
            e,
            "invalid_dimensions"@,
            "w и h должны быть в диапазоне 1..="@ + decimal(MAX_DIMENSION as nat),
        )),
        (w is Some != h is Some) ==> (r matches Err(e) && is_bad_request(
            e,
            "invalid_dimensions"@,
            "w и h задаются только вместе"@,
        )),
{
    match (w, h) {
        (Some(x), Some(y)) => {
            if !(1 <= x && x <= MAX_DIMENSION) || !(1 <= y && y <= MAX_DIMENSION) {
                let mut message = String::from_str("w и h должны быть в диапазоне 1..=");
                push_decimal(&mut message, MAX_DIMENSION as u64);
                return Err(ApiError::BadRequest { code: "invalid_dimensions", message });
            }
            Ok(Some((x, y)))
        },
        (None, None) => Ok(None),
        _ => Err(ApiError::bad_request("invalid_dimensions", "w и h задаются только вместе")),
    }
}

/// Answer to a failed crop: a frame on disk that does not decode is the
/// server's fault; a zero dimension is the request's.
pub fn crop_failure(e: CropError) -> (r: ApiError)
    ensures
        e is ZeroDimension ==> is_bad_request(
            r,
            "invalid_dimensions"@,
            "размеры должны быть больше нуля"@,
        ),
        e matches CropError::Image(t) ==> is_internal(
            r,
            "битый кадр на диске: "@ + ("не удалось обработать изображение: "@ + t@),
        ),
{
    let text = e.message();
    match e {
        CropError::Image(_) => ApiError::internal(
            String::from_str("битый кадр на диске: ").concat(text.as_str()),
        ),
        CropError::ZeroDimension => ApiError::BadRequest { code: "invalid_dimensions", message: text },
    }
}

/// The width of an asked size (0 where none is asked).
pub open spec fn asked_width(size: Option<(u32, u32)>) -> u32 {
    match size {
        Some((w, _)) => w,
        None => 0,
    }
}

/// The height of an asked size (0 where none is asked).
pub open spec fn asked_height(size: Option<(u32, u32)>) -> u32 {
    match size {
        Some((_, h)) => h,
        None => 0,
    }
}

/// The wallpaper made from the camera's last frame: the frame as it is when
/// no size is asked for, else [`crop_to_fit`]'s crop of it at that size. A
/// frame that does not decode is the server's fault (an internal error); a
/// zero size is the request's.
pub fn render_wallpaper(frame: Vec<u8>, size: Option<(u32, u32)>) -> (r: Result<Vec<u8>, ApiError>)
    requires
        size matches Some((w, h)) ==> resize_fits(w, h),
    ensures
        size is None ==> (r matches Ok(out) && out@ == frame@),
        size is Some && asked_width(size) >= 1 && asked_height(size) >= 1 ==> (r is Ok <==> (jpeg_decoded_size(
            frame@,
        ) is Some && asked_width(size) <= MAX_JPEG_SIDE && asked_height(size) <= MAX_JPEG_SIDE)),
        size is Some && asked_width(size) >= 1 && asked_height(size) >= 1 && r is Err ==> r matches Err(
            ApiError::Internal(_),
        ),
        size is Some && r is Ok ==> r->Ok_0@ == fitted_jpeg(frame@, asked_width(size), asked_height(size)),
        size is Some && r is Ok && (asked_width(size) as int) * (asked_height(size) as int) <= DECODABLE_PIXELS
            ==> jpeg_decoded_size(r->Ok_0@) == Some((asked_width(size), asked_height(size))),
        size is Some && (asked_width(size) == 0 || asked_height(size) == 0) ==> (r matches Err(e) && is_bad_request(
            e,
            "invalid_dimensions"@,
            "размеры должны быть больше нуля"@,
        )),
{
    match size {
        None => Ok(frame),
        Some((w, h)) => match crop_to_fit(frame.as_slice(), w, h) {
            Ok(out) => Ok(out),
            Err(e) => Err(crop_failure(e)),
        },
    }
}

// ---------------------------------------------------------------- credentials

/// An ASCII letter or digit.
pub open spec fn is_ascii_alphanumeric(c: char) -> bool {
    'A' <= c <= 'Z' || 'a' <= c <= 'z' || '0' <= c <= '9'
}

/// A random byte of `A`..=`Z`, `a`..=`z`, `0`..=`9` (`Rng::sample` with
/// `rand::distr::Alphanumeric` on the thread's generator). Which one comes
/// out is left open.
#[verifier::external_body]
fn random_alphanumeric() -> (b: u8)
    ensures
        is_ascii_alphanumeric(b as char),
{
    rand::rng().sample(rand::distr::Alphanumeric)
}

/// A random index below `n` (`Rng::random_range(0..n)` on the thread's
/// generator, which panics on an empty range). Which one comes out is left
/// open.
#[verifier::external_body]
fn random_below(n: usize) -> (i: usize)
    requires
        n > 0,
    ensures
        i < n,
{
    rand::rng().random_range(0..n)
}

/// A lower-case hexadecimal digit.
pub open spec fn is_lower_hex_digit(c: char) -> bool {
    '0' <= c <= '9' || 'a' <= c <= 'f'
}

/// Whether a position of a hyphenated UUID holds a hyphen.
pub open spec fn is_uuid_hyphen_position(i: int) -> bool {
    i == 8 || i == 13 || i == 18 || i == 23
}

/// The hyphenated lower-case text of a random (version 4, RFC 4122 variant)
/// UUID: `xxxxxxxx-xxxx-4xxx-Yxxx-xxxxxxxxxxxx` with `Y` one of `8 9 a b`.
pub open spec fn is_uuid_v4_text(s: Seq<char>) -> bool {
    &&& s.len() == 36
    &&& forall|i: int|
        0 <= i < 36 ==> if is_uuid_hyphen_position(i) {
            #[trigger] s[i] == '-'
        } else {
            is_lower_hex_digit(s[i])
        }
    &&& s[14] == '4'
    &&& (s[19] == '8' || s[19] == '9' || s[19] == 'a' || s[19] == 'b')
}

/// A new random id (`uuid::Uuid::new_v4`, which sets the version and
/// variant bits of a random number) in its `Display` form, the hyphenated
/// lower-case hexadecimal text. Which id comes out is left open.
#[verifier::external_body]
fn new_uuid_text() -> (s: String)
    ensures
        is_uuid_v4_text(s@),
{
    uuid::Uuid::new_v4().to_string()
}

/// A random token of `len` ASCII letters and digits.
pub fn random_token(len: usize) -> (t: String)
    ensures
        t@.len() == len,
        forall|i: int| 0 <= i < len ==> is_ascii_alphanumeric(#[trigger] t@[i]),
{
    let mut t = String::new();
    let mut k: usize = 0;
    while k < len
        invariant
            k <= len,
            t@.len() == k,
            forall|i: int| 0 <= i < k ==> is_ascii_alphanumeric(#[trigger] t@[i]),
        decreases len - k,
    {
        let b = random_alphanumeric();
        push_char(&mut t, b as char);
        k = k + 1;
    }
    t
}

/// A random pairing code.
pub fn random_pairing_code() -> (c: String)
    ensures
        is_pairing_code(c@),
{
    proof {
        reveal_strlit("ABCDEFGHJKLMNPQRSTUVWXYZ23456789");
    }
    let n = CODE_ALPHABET.unicode_len();
    let mut c = String::new();
    let mut k: usize = 0;
    while k < CODE_LEN
        invariant
            n == CODE_ALPHABET@.len(),
            n == 32,
            k <= CODE_LEN,
            c@.len() == k,
            forall|i: int| 0 <= i < k ==> is_code_char(#[trigger] c@[i]),
        decreases CODE_LEN - k,
    {
        let i = random_below(n);
        let ch = CODE_ALPHABET.get_char(i);
        assert(CODE_ALPHABET@.contains(ch));
        push_char(&mut c, ch);
        k = k + 1;
    }
    c
}

/// Credentials of a newly registered camera.
#[derive(Debug)]
pub struct CameraCredentials {
    pub camera_id: String,
    /// Secret for frame uploads.
    pub upload_token: String,
    pub pairing_code: String,
}

/// Fresh credentials: a random UUID, a token of `TOKEN_LEN` letters and
/// digits, and a random pairing code.
pub fn new_camera_credentials() -> (c: CameraCredentials)
    ensures
        is_uuid_v4_text(c.camera_id@),
        c.upload_token@.len() == TOKEN_LEN,
        forall|i: int| 0 <= i < TOKEN_LEN ==> is_ascii_alphanumeric(#[trigger] c.upload_token@[i]),
        is_pairing_code(c.pairing_code@),
{
    CameraCredentials {
        camera_id: new_uuid_text(),
        upload_token: random_token(TOKEN_LEN),
        pairing_code: random_pairing_code(),
    }
}

/// Result of inserting a camera row with fresh credentials.
#[derive(Debug)]
pub enum InsertOutcome {
    Inserted,
    /// A UNIQUE constraint refused the row: the short pairing code collides
    /// now and then.
    UniqueViolation,
    /// Any other database failure, with its message.
    Failed(String),
}

/// What registration does after an insert.
#[derive(Debug)]
pub enum RegisterStep {
    /// The camera is registered with the credentials just inserted.
    Registered,
    /// Make fresh credentials and insert again.
    TryAgain,
    /// Answer with this error.
    Fail(ApiError),
}

/// The decision after insert number `attempt` (counted from 1): a collision
/// is retried with fresh credentials up to `REGISTER_ATTEMPTS` inserts in
/// all; uniqueness itself rests on the database's UNIQUE constraint.
pub fn register_step(attempt: u32, outcome: InsertOutcome) -> (s: RegisterStep)
    requires
        1 <= attempt <= REGISTER_ATTEMPTS,
    ensures
        outcome is Inserted ==> s is Registered,
        outcome is UniqueViolation && attempt < REGISTER_ATTEMPTS ==> s is TryAgain,
        outcome is UniqueViolation && attempt == REGISTER_ATTEMPTS ==> (s matches RegisterStep::Fail(
            e,
        ) && is_internal(e, "не удалось подобрать уникальный пейринг-код за 5 попыток"@)),
        outcome matches InsertOutcome::Failed(d) ==> (s matches RegisterStep::Fail(e) && is_internal(
            e,
            d@,
        )),
        s is TryAgain ==> attempt < REGISTER_ATTEMPTS,
{
    match outcome {
        InsertOutcome::Inserted => RegisterStep::Registered,
        InsertOutcome::UniqueViolation => {
            if attempt < REGISTER_ATTEMPTS {
                RegisterStep::TryAgain
            } else {
                RegisterStep::Fail(
                    ApiError::internal(
                        String::from_str("не удалось подобрать уникальный пейринг-код за 5 попыток"),
                    ),
                )
            }
        },
        InsertOutcome::Failed(d) => RegisterStep::Fail(ApiError::internal(d)),
    }
}

// ---------------------------------------------------------------- time

#[verifier::external_type_specification]
#[verifier::external_body]
pub struct ExSystemTime(std::time::SystemTime);

#[verifier::external_type_specification]
#[verifier::external_body]
pub struct ExSystemTimeError(std::time::SystemTimeError);

/// The system clock's current time (`SystemTime::now`); what it reads is
/// the clock's business, and nothing is stated of it.
#[verifier::external_body]
fn system_now() -> std::time::SystemTime {
    std::time::SystemTime::now()
}

/// Time elapsed from the Unix epoch to `t` (`SystemTime::duration_since`
/// with `UNIX_EPOCH`), an error where `t` lies before the epoch. Nothing is
/// stated of the result: the library holds no plain value for a time.
#[verifier::external_body]
fn since_unix_epoch(t: &std::time::SystemTime) -> Result<
    std::time::Duration,
    std::time::SystemTimeError,
> {
    t.duration_since(std::time::UNIX_EPOCH)
}

/// The whole seconds of a duration (`Duration::as_secs`). Nothing is
/// stated of the number: the library holds no plain value for a duration.
#[verifier::external_body]
fn whole_seconds(d: &std::time::Duration) -> u64 {
    d.as_secs()
}

/// Unix time in seconds from the seconds elapsed since the epoch, `None`
/// where the clock reads a time before 1970. That is a broken clock, which
/// the server answers with an internal error. (`i64` holds Unix seconds for
/// some 300 billion years; the cast keeps the low bits past that.)
pub fn unix_seconds(since_epoch: Option<u64>) -> (r: Result<i64, ApiError>)
    ensures
        since_epoch matches Some(s) ==> r == Ok::<i64, ApiError>(s as i64),
        since_epoch is None ==> (r matches Err(e) && is_internal(
            e,
            "время до 1970 — сломанные часы"@,
        )),
{
    match since_epoch {
        Some(s) => Ok(s as i64),
        None => Err(ApiError::internal(String::from_str("время до 1970 — сломанные часы"))),
    }
}

/// The current Unix time in seconds.
pub fn unix_now() -> (r: Result<i64, ApiError>)
    ensures
        r matches Err(e) ==> is_internal(e, "время до 1970 — сломанные часы"@),
{
    let now = system_now();
    match since_unix_epoch(&now) {
        Ok(d) => unix_seconds(Some(whole_seconds(&d))),
        Err(_) => unix_seconds(None),
    }
}

} // verus!
