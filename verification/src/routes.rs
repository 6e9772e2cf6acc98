use crate::authorization::{authorization_error_message, AuthorizationError};
use crate::domain::image::image_path;
use crate::domain::new_user::{registration_is_valid, NewUser};
use crate::domain::post::NewPost;
use crate::domain::user_password::{
    argon2_check, argon2_phc_hash, is_generated_salt, max_password_bytes,
};
use crate::domain::text_body::post_body_check;
use crate::text::{is_ascii_char, push_char};
use vstd::prelude::*;
use vstd::utf8::{decode_utf8, encode_utf8, valid_utf8};

verus! {

/// Why a registration was refused, and how the server answers it.
#[derive(Debug, Clone, Copy, PartialEq, Eq, Structural)]
pub enum NewUserError {
    QueryError,
    ParseError,
}

pub open spec fn new_user_error_status(e: NewUserError) -> u16 {
    match e {
        NewUserError::QueryError => 500,
        NewUserError::ParseError => 400,
    }
}

pub open spec fn new_user_error_message(e: NewUserError) -> Seq<char> {
    match e {
        NewUserError::QueryError => "An internal error occured. Please try again later"@,
        NewUserError::ParseError => "Error parsing submitted fields"@,
    }
}

impl NewUserError {
    /// The HTTP status of the answer: a server fault for a failed insert, a bad request
    /// for fields that did not pass validation.
    pub fn status_code(&self) -> (s: u16)
        ensures
            s == new_user_error_status(*self),
    {
        match self {
            NewUserError::QueryError => 500,
            NewUserError::ParseError => 400,
        }
    }

    /// The body of the answer.
    pub fn message(&self) -> (m: String)
        ensures
            m@ == new_user_error_message(*self),
    {
        match self {
            NewUserError::QueryError => "An internal error occured. Please try again later"
                .to_owned(),
            NewUserError::ParseError => "Error parsing submitted fields".to_owned(),
        }
    }
}

/// The fields of the registration form.
pub struct NewUserForm {
    pub username: String,
    pub email: String,
    pub password: String,
    pub password_ver: String,
}

impl NewUserForm {
    /// Validates the form into a user to insert; any refusal is a `ParseError`.
    pub fn into_new_user(self) -> (res: Result<NewUser, NewUserError>)
        ensures
            !registration_is_valid(self.email@, self.username@, self.password@, self.password_ver@)
                ==> res == Err::<NewUser, NewUserError>(NewUserError::ParseError),
            res is Ok || res == Err::<NewUser, NewUserError>(NewUserError::ParseError),
            registration_is_valid(self.email@, self.username@, self.password@, self.password_ver@)
                && encode_utf8(self.password@).len() <= max_password_bytes() ==> res is Ok,
            self.password@ != self.password_ver@ ==> res == Err::<NewUser, NewUserError>(
                NewUserError::ParseError,
            ),
            res matches Ok(u) ==> {
                &&& u.username@ == self.username@
                &&& u.email@ == self.email@
                &&& exists|salt: Seq<char>|
                    is_generated_salt(salt) && argon2_phc_hash(encode_utf8(self.password@), salt)
                        == Some(u.hashed_password@)
                &&& argon2_check(encode_utf8(self.password@), u.hashed_password@) == Some(true)
            },
    {
        match NewUser::new(self.email, self.username, self.password, self.password_ver) {
            Ok(u) => Ok(u),
            Err(_) => Err(NewUserError::ParseError),
        }
    }
}

/// Why a post was refused, and how the server answers it.
#[derive(Debug, Clone, Copy, PartialEq, Eq, Structural)]
pub enum NewPostError {
    QueryError,
    FileUploadError,
    ParseError,
}

pub open spec fn new_post_error_status(e: NewPostError) -> u16 {
    match e {
        NewPostError::QueryError => 500,
        NewPostError::FileUploadError => 500,
        NewPostError::ParseError => 400,
    }
}

pub open spec fn new_post_error_message(e: NewPostError) -> Seq<char> {
    match e {
        NewPostError::QueryError => "An internal error occured. Please try again later"@,
        NewPostError::FileUploadError => "Error uploading your file"@,
        NewPostError::ParseError => "Error parsing submitted fields"@,
    }
}

impl NewPostError {
    /// The HTTP status of the answer: server faults for storage, a bad request for a post
    /// that did not pass validation.
    pub fn status_code(&self) -> (s: u16)
        ensures
            s == new_post_error_status(*self),
    {
        match self {
            NewPostError::QueryError => 500,
            NewPostError::FileUploadError => 500,
            NewPostError::ParseError => 400,
        }
    }

    /// The body of the answer.
    pub fn message(&self) -> (m: String)
        ensures
            m@ == new_post_error_message(*self),
    {
        match self {
            NewPostError::QueryError => "An internal error occured. Please try again later"
                .to_owned(),
            NewPostError::FileUploadError => "Error uploading your file".to_owned(),
            NewPostError::ParseError => "Error parsing submitted fields".to_owned(),
        }
    }
}

/// What a field of a post submission holds, by its name.
#[derive(Debug, Clone, Copy, PartialEq, Eq, Structural)]
pub enum PostField {
    Text,
    Image,
    Other,
}

pub open spec fn post_field_kind(name: Seq<char>) -> PostField {
    if name == "post-editor"@ {
        PostField::Text
    } else if name == "image"@ {
        PostField::Image
    } else {
        PostField::Other
    }
}

/// Tells the text field (`post-editor`) and the image field (`image`) from the rest, which
/// are ignored.
pub fn post_field(name: &str) -> (k: PostField)
    ensures
        k == post_field_kind(name@),
{
    let n = name.to_owned();
    if n == "post-editor".to_owned() {
        PostField::Text
    } else if n == "image".to_owned() {
        PostField::Image
    } else {
        PostField::Other
    }
}

/// Calls `String::from_utf8`: the bytes decoded when they are UTF-8, else `None`.
#[verifier::external_body]
fn utf8_to_string(bytes: Vec<u8>) -> (res: Option<String>)
    ensures
        res is Some <==> valid_utf8(bytes@),
        res matches Some(s) ==> s@ == decode_utf8(bytes@),
{
    String::from_utf8(bytes).ok()
}

/// The chars that `sanitize-filename` removes from any name.
pub open spec fn is_unsafe_filename_char(c: char) -> bool {
    ||| c == '/'
    ||| c == '?'
    ||| c == '<'
    ||| c == '>'
    ||| c == '\\'
    ||| c == ':'
    ||| c == '*'
    ||| c == '|'
    ||| c == '"'
    ||| c <= '\u{1f}'
    ||| '\u{80}' <= c <= '\u{9f}'
}

/// A file name that stays inside the directory it is joined to: no separator, no other
/// char that `sanitize-filename` removes, not `.` or `..`, at most 255 bytes.
pub open spec fn is_safe_file_name(s: Seq<char>) -> bool {
    &&& forall|i: int| 0 <= i < s.len() ==> !is_unsafe_filename_char(#[trigger] s[i])
    &&& s != seq!['.']
    &&& s != seq!['.', '.']
    &&& encode_utf8(s).len() <= 255
}

/// Whether `a` is made of chars of `b`, in the order they stand in `b`.
pub open spec fn is_subsequence_of(a: Seq<char>, b: Seq<char>) -> bool {
    exists|idx: Seq<int>|
        {
            &&& idx.len() == a.len()
            &&& forall|i: int|
                0 <= i < idx.len() ==> 0 <= #[trigger] idx[i] < b.len() && a[i] == b[idx[i]]
            &&& forall|i: int, j: int| 0 <= i < j < idx.len() ==> idx[i] < idx[j]
        }
}

/// A non-empty name made of dots alone.
pub open spec fn is_all_dots(s: Seq<char>) -> bool {
    s.len() > 0 && forall|i: int| 0 <= i < s.len() ==> s[i] == '.'
}

/// Whether `c` may match the ASCII letter `lower` when case is ignored: that letter in
/// either case, or a char outside ASCII (which case folding could map to it).
pub open spec fn may_match_letter(c: char, lower: char) -> bool {
    c == lower || c == ((lower as u32) - 32) as char || !is_ascii_char(c)
}

pub open spec fn may_start_with(s: Seq<char>, a: char, b: char, c: char) -> bool {
    s.len() >= 3 && may_match_letter(s[0], a) && may_match_letter(s[1], b) && may_match_letter(
        s[2],
        c,
    )
}

/// The name ends at `i` or goes on with a dot there.
pub open spec fn stem_ends_at(s: Seq<char>, i: int) -> bool {
    s.len() == i || (s.len() > i && s[i] == '.')
}

/// Whether `s` may be a name that Windows reserves (`con`, `prn`, `aux`, `nul`, `com0`-`com9`,
/// `lpt0`-`lpt9`, in any case, alone or before a dot), which `sanitize-filename` empties
/// when built for Windows. The test errs on the side of "may".
pub open spec fn may_be_windows_reserved(s: Seq<char>) -> bool {
    ||| (may_start_with(s, 'c', 'o', 'n') || may_start_with(s, 'p', 'r', 'n') || may_start_with(
        s,
        'a',
        'u',
        'x',
    ) || may_start_with(s, 'n', 'u', 'l')) && stem_ends_at(s, 3)
    ||| (may_start_with(s, 'c', 'o', 'm') || may_start_with(s, 'l', 'p', 't')) && s.len() >= 4
        && ('0' <= s[3] <= '9' || !is_ascii_char(s[3])) && stem_ends_at(s, 4)
}

/// A name that `sanitize-filename` leaves as it is on every platform: nothing to remove,
/// not dots alone, at most 255 bytes, not a name that Windows reserves.
pub open spec fn sanitize_keeps(s: Seq<char>) -> bool {
    &&& forall|i: int| 0 <= i < s.len() ==> !is_unsafe_filename_char(#[trigger] s[i])
    &&& !is_all_dots(s)
    &&& encode_utf8(s).len() <= 255
    &&& !may_be_windows_reserved(s)
}

/// `s` with every char that `sanitize-filename` removes deleted.
pub open spec fn remove_unsafe_chars(s: Seq<char>) -> Seq<char>
    decreases s.len(),
{
    if s.len() == 0 {
        s
    } else if is_unsafe_filename_char(s.last()) {
        remove_unsafe_chars(s.drop_last())
    } else {
        remove_unsafe_chars(s.drop_last()).push(s.last())
    }
}

/// The longest prefix of `s` whose UTF-8 form has at most 255 bytes.
pub open spec fn fit_to_255_bytes(s: Seq<char>) -> Seq<char>
    decreases s.len(),
{
    if s.len() == 0 || encode_utf8(s).len() <= 255 {
        s
    } else {
        fit_to_255_bytes(s.drop_last())
    }
}

/// Deleting chars distributes over concatenation.
pub proof fn lemma_remove_unsafe_chars_concat(a: Seq<char>, b: Seq<char>)
    ensures
        remove_unsafe_chars(a + b) == remove_unsafe_chars(a) + remove_unsafe_chars(b),
    decreases b.len(),
{
    if b.len() == 0 {
        assert(a + b =~= a);
        assert(remove_unsafe_chars(a) + remove_unsafe_chars(b) =~= remove_unsafe_chars(a));
    } else {
        lemma_remove_unsafe_chars_concat(a, b.drop_last());
        assert((a + b).drop_last() =~= a + b.drop_last());
        assert((a + b).last() == b.last());
        if !is_unsafe_filename_char(b.last()) {
            assert(remove_unsafe_chars(a) + remove_unsafe_chars(b) =~= (remove_unsafe_chars(a)
                + remove_unsafe_chars(b.drop_last())).push(b.last()));
        }
    }
}

/// Calls `sanitize_filename::sanitize`. What it removes depends on the platform it was
/// built for (Windows also empties reserved names), so what is stated holds on every
/// platform: the result holds no char of the removed set, is not `.` or `..` (a name of dots
/// alone becomes empty, and a truncated one keeps at least 252 bytes), is at most 255 bytes,
/// and is made of chars of `name` in order (the crate only deletes matches, empties the
/// whole name, or keeps a prefix); a name with nothing to remove, truncate or empty is kept.
/// More precisely, the crate deletes the removed chars, empties a name of dots alone (and,
/// on Windows, a reserved name), then cuts the name to its longest prefix of at most 255
/// bytes; so unless what is left after the deletion is dots alone or may be reserved, the
/// result is that rest, cut to 255 bytes.
#[verifier::external_body]
fn sanitize(name: &str) -> (res: String)
    ensures
        is_safe_file_name(res@),
        is_subsequence_of(res@, name@),
        sanitize_keeps(name@) ==> res@ == name@,
        !is_all_dots(remove_unsafe_chars(name@)) && !may_be_windows_reserved(
            remove_unsafe_chars(name@),
        ) ==> res@ == fit_to_255_bytes(remove_unsafe_chars(name@)),
{
    sanitize_filename::sanitize(name)
}

/// The name under which an upload is stored, before sanitizing: `"<id>-<filename>"`.
pub open spec fn upload_name(id: Seq<char>, filename: Seq<char>) -> Seq<char> {
    id.push('-') + filename
}

/// The name under which an upload is stored, after sanitizing, when no Windows reserved name
/// is in the way: the id and the file name, each without the removed chars, joined by `-`,
/// and cut to 255 bytes.
pub open spec fn upload_file_name(id: Seq<char>, filename: Seq<char>) -> Seq<char> {
    remove_unsafe_chars(id).push('-') + remove_unsafe_chars(filename)
}

/// Where an uploaded image is stored: in `u_path`, under the sanitized form of
/// `"<id>-<filename>"`, where `id` is a fresh unique id that the caller draws.
pub fn image_upload_path(u_path: &str, id: &str, filename: &str) -> (res: String)
    ensures
        exists|name: Seq<char>|
            is_safe_file_name(name) && is_subsequence_of(name, upload_name(id@, filename@))
                && res@ == u_path@.push('/') + name,
        sanitize_keeps(upload_name(id@, filename@)) ==> res@ == u_path@.push('/') + upload_name(
            id@,
            filename@,
        ),
        !may_be_windows_reserved(upload_file_name(id@, filename@)) ==> res@ == u_path@.push('/')
            + fit_to_255_bytes(upload_file_name(id@, filename@)),
{
    let mut full = id.to_owned();
    push_char(&mut full, '-');
    full.append(filename);
    assert(full@ == upload_name(id@, filename@));
    proof {
        let r = upload_file_name(id@, filename@);
        lemma_remove_unsafe_chars_concat(id@.push('-'), filename@);
        lemma_remove_unsafe_chars_concat(id@, seq!['-']);
        assert(id@.push('-') =~= id@ + seq!['-']);
        assert(remove_unsafe_chars(seq!['-']) =~= seq!['-']) by {
            let dash = seq!['-'];
            assert(dash.len() == 1);
            assert(dash.last() == '-');
            assert(!is_unsafe_filename_char('-'));
            assert(dash.drop_last() =~= Seq::<char>::empty());
            assert(remove_unsafe_chars(Seq::<char>::empty()) =~= Seq::<char>::empty());
            assert(Seq::<char>::empty().push('-') =~= dash);
        }
        assert(remove_unsafe_chars(id@).push('-') =~= remove_unsafe_chars(id@) + seq!['-']);
        assert(remove_unsafe_chars(full@) == r);
        let k = remove_unsafe_chars(id@).len() as int;
        assert(r[k] == '-');
        assert(!is_all_dots(r));
    }
    let name = sanitize(full.as_str());
    let mut res = u_path.to_owned();
    push_char(&mut res, '/');
    res.append(name.as_str());
    assert(res@ == u_path@.push('/') + name@);
    res
}

/// The chunks of a post's text, one after the other.
pub open spec fn concat_chunks(parts: Seq<Seq<char>>) -> Seq<char>
    decreases parts.len(),
{
    if parts.len() == 0 {
        Seq::empty()
    } else {
        concat_chunks(parts.drop_last()) + parts.last()
    }
}

/// The text of a post collected so far, chunk by chunk, from the `post-editor` field.
pub struct PostDraft {
    text_body: Vec<String>,
}

impl View for PostDraft {
    type V = Seq<Seq<char>>;

    closed spec fn view(&self) -> Seq<Seq<char>> {
        self.text_body@.map_values(|s: String| s@)
    }
}

impl PostDraft {
    /// A draft with no text.
    pub fn new() -> (d: PostDraft)
        ensures
            d@ == Seq::<Seq<char>>::empty(),
    {
        let d = PostDraft { text_body: Vec::new() };
        assert(d@ =~= Seq::<Seq<char>>::empty());
        d
    }

    /// Adds a chunk of the text field; a chunk that is not UTF-8 refuses the post.
    pub fn add_text_chunk(&mut self, chunk: Vec<u8>) -> (res: Result<(), NewPostError>)
        ensures
            valid_utf8(chunk@) ==> res is Ok && final(self)@ == old(self)@.push(
                decode_utf8(chunk@),
            ),
            !valid_utf8(chunk@) ==> res == Err::<(), NewPostError>(NewPostError::ParseError)
                && final(self)@ == old(self)@,
    {
        match utf8_to_string(chunk) {
            Some(s) => {
                self.text_body.push(s);
                assert(self@ =~= old(self)@.push(decode_utf8(chunk@)));
                Ok(())
            },
            None => Err(NewPostError::ParseError),
        }
    }

    /// The text as it was sent: the chunks one after the other.
    pub fn body(&self) -> (b: String)
        ensures
            b@ == concat_chunks(self@),
    {
        let mut b = String::new();
        let n = self.text_body.len();
        let mut i: usize = 0;
        while i < n
            invariant
                n == self.text_body@.len(),
                self@ == self.text_body@.map_values(|s: String| s@),
                0 <= i <= n,
                b@ == concat_chunks(self@.take(i as int)),
            decreases n - i,
        {
            b.append(self.text_body[i].as_str());
            assert(self@.take(i as int + 1).drop_last() =~= self@.take(i as int));
            i = i + 1;
        }
        assert(self@.take(n as int) =~= self@);
        b
    }

    /// Turns the draft into a post whose image is stored at `image`; a text that does
    /// not pass validation is a `ParseError`.
    pub fn finish(self, image: String) -> (res: Result<NewPost, NewPostError>)
        ensures
            match post_body_check(concat_chunks(self@)) {
                Ok(_) => res matches Ok(p) && p.body@ == concat_chunks(self@) && p.image.path@
                    == image_path(image@),
                Err(_) => res == Err::<NewPost, NewPostError>(NewPostError::ParseError),
            },
    {
        let body = self.body();
        match NewPost::new(body, image) {
            Ok(p) => Ok(p),
            Err(_) => Err(NewPostError::ParseError),
        }
    }
}

/// Why a login was refused, as the login form shows it.
#[derive(Debug, Clone, PartialEq, Eq)]
pub enum LoginError {
    IncorrectLogin(AuthorizationError),
    SystemError(String),
}

pub open spec fn login_error_message(e: LoginError) -> Seq<char> {
    match e {
        LoginError::IncorrectLogin(_) => "Username and password are incorrect"@,
        LoginError::SystemError(_) => "Something went wrong"@,
    }
}

impl LoginError {
    /// The text flashed on the login form.
    pub fn message(&self) -> (m: String)
        ensures
            m@ == login_error_message(*self),
    {
        match self {
            LoginError::IncorrectLogin(_) => "Username and password are incorrect".to_owned(),
            LoginError::SystemError(_) => "Something went wrong".to_owned(),
        }
    }
}

/// What the login handler does with the outcome of a login attempt.
#[derive(Debug, Clone, PartialEq, Eq)]
pub enum LoginAction {
    /// Renew the session, keep the user id in it, and go on to the dashboard.
    StartSession(u128),
    /// Flash the error's message and send the user back to the login form.
    Refuse(LoginError),
}

pub open spec fn login_location(a: LoginAction) -> Seq<char> {
    match a {
        LoginAction::StartSession(_) => "/admin/dashboard"@,
        LoginAction::Refuse(_) => "/login"@,
    }
}

impl LoginAction {
    /// Where the answer redirects to.
    pub fn location(&self) -> (l: String)
        ensures
            l@ == login_location(*self),
    {
        match self {
            LoginAction::StartSession(_) => "/admin/dashboard".to_owned(),
            LoginAction::Refuse(_) => "/login".to_owned(),
        }
    }
}

/// Decides the answer to a login attempt: a known user with the right password starts a
/// session; a wrong username or password is an incorrect login; a system failure is
/// reported as such, with the failure's message.
pub fn decide_login(result: Result<u128, AuthorizationError>) -> (a: LoginAction)
    ensures
        match result {
            Ok(uid) => a == LoginAction::StartSession(uid),
            Err(e) => match e {
                AuthorizationError::SystemError(_) => a matches LoginAction::Refuse(
                    LoginError::SystemError(m),
                ) && m@ == authorization_error_message(e),
                _ => a == LoginAction::Refuse(LoginError::IncorrectLogin(e)),
            },
        },
        result is Err ==> a is Refuse && login_location(a) == "/login"@,
        result matches Err(e) && !(e is SystemError) ==> (a matches LoginAction::Refuse(le)
            && login_error_message(le) == "Username and password are incorrect"@),
{
    match result {
        Ok(uid) => LoginAction::StartSession(uid),
        Err(e) => match e {
            AuthorizationError::SystemError(_) => LoginAction::Refuse(
                LoginError::SystemError(e.message()),
            ),
            _ => LoginAction::Refuse(LoginError::IncorrectLogin(e)),
        },
    }
}

/// When the user id cannot be kept in the session, the login is refused as a system
/// failure with the session store's message.
pub fn session_failure(message: String) -> (a: LoginAction)
    ensures
        a matches LoginAction::Refuse(LoginError::SystemError(m)) && m@ == message@,
{
    LoginAction::Refuse(LoginError::SystemError(message))
}

/// Access to the pages for logged-in users: the user id kept in the session, or, when
/// there is none, the page to redirect to (the login form).
pub fn logged_in_user(session_user: Option<u128>) -> (res: Result<u128, String>)
    ensures
        match session_user {
            Some(uid) => res == Ok::<u128, String>(uid),
            None => res matches Err(location) && location@ == "/login"@,
        },
{
    match session_user {
        Some(uid) => Ok(uid),
        None => Err("/login".to_owned()),
    }
}

/// The level of a flash message.
#[derive(Debug, Clone, Copy, PartialEq, Eq, Structural)]
pub enum FlashLevel {
    Debug,
    Info,
    Success,
    Warning,
    Error,
}

/// The contents of the error-level messages, in order.
pub open spec fn error_contents(msgs: Seq<(FlashLevel, Seq<char>)>) -> Seq<Seq<char>>
    decreases msgs.len(),
{
    if msgs.len() == 0 {
        Seq::empty()
    } else if msgs.last().0 == FlashLevel::Error {
        error_contents(msgs.drop_last()).push(msgs.last().1)
    } else {
        error_contents(msgs.drop_last())
    }
}

pub open spec fn flash_view(msgs: Seq<(FlashLevel, String)>) -> Seq<(FlashLevel, Seq<char>)> {
    msgs.map_values(|m: (FlashLevel, String)| (m.0, m.1@))
}

/// The error messages to show on the login form: the contents of the incoming flash
/// messages of level `Error`, in the order they came.
pub fn login_form_errors(messages: &Vec<(FlashLevel, String)>) -> (errors: Vec<String>)
    ensures
        errors@.map_values(|s: String| s@) == error_contents(flash_view(messages@)),
{
    let mut errors: Vec<String> = Vec::new();
    let n = messages.len();
    let mut i: usize = 0;
    while i < n
        invariant
            n == messages@.len(),
            0 <= i <= n,
            errors@.map_values(|s: String| s@) == error_contents(
                flash_view(messages@).take(i as int),
            ),
        decreases n - i,
    {
        let ghost before = errors@;
        let level = messages[i].0;
        assert(flash_view(messages@).take(i as int + 1).drop_last() =~= flash_view(
            messages@,
        ).take(i as int));
        if level == FlashLevel::Error {
            errors.push(messages[i].1.clone());
            assert(errors@.map_values(|s: String| s@) =~= before.map_values(|s: String| s@).push(
                messages@[i as int].1@,
            ));
        }
        i = i + 1;
    }
    assert(flash_view(messages@).take(n as int) =~= flash_view(messages@));
    errors
}

} // verus!
