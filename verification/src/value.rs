//! Value objects with their validation rules. Passwords and hashes never show their text in
//! diagnostic output.

use crate::error::{DomainError, DomainErrorView};
use crate::text::{
    all_word_chars, ascii_lower_spec, has_control, is_control_spec, is_word_char_spec, to_ascii_lowercase,
    trim, trim_spec, byte_len,
};
use vstd::prelude::*;
use vstd::string::*;

verus! {

broadcast use vstd::string::group_string_axioms;

/// The error that a value check raises for `field` with `reason`.
pub open spec fn invalid(field: Seq<char>, reason: Seq<char>) -> DomainErrorView {
    DomainErrorView::InvalidValue { field, reason }
}

/// Rule for user names: trimmed, 3..=32 bytes, only ASCII letters, digits and `_`;
/// stored in ASCII lower case.
pub open spec fn username_rule(raw: Seq<char>) -> Result<Seq<char>, DomainErrorView> {
    let t = trim_spec(raw);
    if !(3 <= byte_len(t) && byte_len(t) <= 32) {
        Err(invalid("username"@, "长度必须在 3~32 之间"@))
    } else if !(forall|i: int| 0 <= i < t.len() ==> is_word_char_spec(#[trigger] t[i])) {
        Err(invalid("username"@, "只能包含字母、数字与下划线"@))
    } else {
        Ok(t.map_values(|c: char| ascii_lower_spec(c)))
    }
}

/// A text that the user-name rule accepts as stored: 3..=32 bytes, each character a lower-case
/// ASCII letter, a digit or `_`.
pub open spec fn is_valid_username(s: Seq<char>) -> bool {
    &&& 3 <= byte_len(s) <= 32
    &&& forall|i: int| 0 <= i < s.len() ==> is_word_char_spec(#[trigger] s[i])
    &&& forall|i: int| 0 <= i < s.len() ==> !(0x41 <= (#[trigger] s[i]) as u32 <= 0x5A)
}

/// Rule for nicknames: trimmed, 1..=32 characters (Unicode scalar values), no control
/// character.
pub open spec fn nickname_rule(raw: Seq<char>) -> Result<Seq<char>, DomainErrorView> {
    let t = trim_spec(raw);
    if t.len() == 0 || t.len() > 32 {
        Err(invalid("nickname"@, "长度必须在 1~32 个字符之间"@))
    } else if exists|i: int| 0 <= i < t.len() && is_control_spec(#[trigger] t[i]) {
        Err(invalid("nickname"@, "不允许包含控制字符"@))
    } else {
        Ok(t)
    }
}

/// Rule for plain passwords: 8..=128 bytes as given (not trimmed), no control character.
pub open spec fn password_rule(raw: Seq<char>) -> Result<Seq<char>, DomainErrorView> {
    if !(8 <= byte_len(raw) && byte_len(raw) <= 128) {
        Err(invalid("password"@, "长度必须在 8~128 字节之间"@))
    } else if exists|i: int| 0 <= i < raw.len() && is_control_spec(#[trigger] raw[i]) {
        Err(invalid("password"@, "不允许包含控制字符"@))
    } else {
        Ok(raw)
    }
}

/// A user name is accepted exactly when, once trimmed, it has 3..=32 bytes and holds only
/// ASCII digits, ASCII letters and `_`; what is stored then holds only digits, lower-case
/// ASCII letters and `_`. So any name with another character (`-`, a space inside, a
/// non-ASCII letter) is refused.
pub proof fn law_username_holds_only_ascii_word_chars(raw: Seq<char>)
    ensures
        username_rule(raw) is Ok <==> (3 <= byte_len(trim_spec(raw)) <= 32 && forall|i: int|
            0 <= i < trim_spec(raw).len() ==> {
                let c = #[trigger] trim_spec(raw)[i];
                ('0' <= c <= '9') || ('A' <= c <= 'Z') || ('a' <= c <= 'z') || c == '_'
            }),
        username_rule(raw) matches Ok(name) ==> forall|i: int|
            0 <= i < name.len() ==> {
                let c = #[trigger] name[i];
                ('0' <= c <= '9') || ('a' <= c <= 'z') || c == '_'
            },
{
    let t = trim_spec(raw);
    assert forall|i: int| 0 <= i < t.len() implies (is_word_char_spec(#[trigger] t[i]) <==> {
        let c = t[i];
        ('0' <= c <= '9') || ('A' <= c <= 'Z') || ('a' <= c <= 'z') || c == '_'
    }) by {
        let c = t[i];
        vstd::utf8::char_u32_cast(c, c as u32);
    }
    if let Ok(name) = username_rule(raw) {
        assert forall|i: int| 0 <= i < name.len() implies {
            let c = #[trigger] name[i];
            ('0' <= c <= '9') || ('a' <= c <= 'z') || c == '_'
        } by {
            assert(is_word_char_spec(t[i]));
            assert(name[i] == ascii_lower_spec(t[i]));
        }
    }
}

/// A stored user name passes the rule unchanged: normalising is idempotent.
pub proof fn law_username_normalisation_is_idempotent(raw: Seq<char>, name: Seq<char>)
    requires
        username_rule(raw) == Ok::<Seq<char>, DomainErrorView>(name),
        is_valid_username(name),
    ensures
        username_rule(name) == Ok::<Seq<char>, DomainErrorView>(name),
{
    lemma_valid_username_is_fixed(name);
}

/// Every valid stored user name passes the rule unchanged.
pub proof fn lemma_valid_username_is_fixed(name: Seq<char>)
    requires
        is_valid_username(name),
    ensures
        username_rule(name) == Ok::<Seq<char>, DomainErrorView>(name),
{
    assert(is_word_char_spec(name[0]));
    assert(is_word_char_spec(name[name.len() - 1]));
    crate::text::lemma_trim_of_untrimmable(name);
    assert(name.map_values(|c: char| ascii_lower_spec(c)) =~= name) by {
        assert forall|i: int| 0 <= i < name.len() implies ascii_lower_spec(name[i]) == name[i] by {
            assert(!(0x41 <= name[i] as u32 <= 0x5A));
        }
    }
}

/// An accepted nickname passes the rule unchanged.
pub proof fn law_nickname_check_is_idempotent(raw: Seq<char>, nick: Seq<char>)
    requires
        nickname_rule(raw) == Ok::<Seq<char>, DomainErrorView>(nick),
    ensures
        nickname_rule(nick) == Ok::<Seq<char>, DomainErrorView>(nick),
{
    crate::text::law_trim_is_idempotent(raw);
}

/// An accepted password passes the rule unchanged.
pub proof fn law_password_check_is_idempotent(raw: Seq<char>, pw: Seq<char>)
    requires
        password_rule(raw) == Ok::<Seq<char>, DomainErrorView>(pw),
    ensures
        password_rule(pw) == Ok::<Seq<char>, DomainErrorView>(pw),
{
}

/// A user name: 3..=32 ASCII letters, digits or underscores, kept in lower case.
#[derive(Clone, PartialEq, Eq, Hash, Debug)]
pub struct Username(String);

impl View for Username {
    type V = Seq<char>;

    closed spec fn view(&self) -> Seq<char> {
        self.0@
    }
}

proof fn lemma_lowered_username_is_valid(t: Seq<char>)
    requires
        3 <= byte_len(t) <= 32,
        forall|i: int| 0 <= i < t.len() ==> is_word_char_spec(#[trigger] t[i]),
    ensures
        is_valid_username(t.map_values(|c: char| ascii_lower_spec(c))),
{
    assert(vstd::utf8::is_ascii_chars(t)) by {
        assert forall|i: int| 0 <= i < t.len() implies '\0' <= #[trigger] t[i] <= '\u{7f}' by {
            assert(is_word_char_spec(t[i]));
            assert((t[i] as u32) <= 0x7f);
            vstd::utf8::char_u32_cast(t[i], t[i] as u32);
        }
    }
    vstd::utf8::is_ascii_chars_encode_utf8(t);
    let m = t.map_values(|c: char| ascii_lower_spec(c));
    assert(vstd::utf8::is_ascii_chars(m)) by {
        assert forall|i: int| 0 <= i < m.len() implies '\0' <= #[trigger] m[i] <= '\u{7f}' by {
            assert(is_word_char_spec(t[i]));
            assert((m[i] as u32) <= 0x7f);
        }
    }
    vstd::utf8::is_ascii_chars_encode_utf8(m);
    assert forall|i: int| 0 <= i < m.len() implies is_word_char_spec(#[trigger] m[i]) && !(0x41
        <= m[i] as u32 <= 0x5A) by {
        assert(is_word_char_spec(t[i]));
    }
}

impl Username {
    /// Checks and normalises a user name.
    pub fn try_new(raw: &str) -> (r: Result<Username, DomainError>)
        ensures
            r matches Ok(u) ==> username_rule(raw@) == Ok::<Seq<char>, DomainErrorView>(u@),
            r matches Err(e) ==> username_rule(raw@) == Err::<Seq<char>, DomainErrorView>(e@),
            r matches Ok(u) ==> is_valid_username(u@),
    {
        let trimmed = trim(raw);
        let len = trimmed.len();
        if !(3 <= len && len <= 32) {
            return Err(
                DomainError::InvalidValue {
                    field: "username",
                    reason: String::from_str("长度必须在 3~32 之间"),
                },
            );
        }
        if !all_word_chars(trimmed) {
            return Err(
                DomainError::InvalidValue {
                    field: "username",
                    reason: String::from_str("只能包含字母、数字与下划线"),
                },
            );
        }
        proof {
            lemma_lowered_username_is_valid(trimmed@);
        }
        Ok(Username(to_ascii_lowercase(trimmed)))
    }

    pub fn as_str(&self) -> (s: &str)
        ensures
            s@ == self@,
    {
        self.0.as_str()
    }

    pub fn into_inner(self) -> (s: String)
        ensures
            s@ == self@,
    {
        self.0
    }

    /// The text that logs show: `Username(<name>)`.
    pub fn debug_text(&self) -> (s: String)
        ensures
            s@ == "Username("@ + self@ + ")"@,
    {
        let mut s = String::from_str("Username(");
        s.append(self.0.as_str());
        s.append(")");
        s
    }
}

/// A nickname: 1..=32 characters without control characters.
#[derive(Clone, PartialEq, Eq, Hash, Debug)]
pub struct Nickname(String);

impl View for Nickname {
    type V = Seq<char>;

    closed spec fn view(&self) -> Seq<char> {
        self.0@
    }
}

impl Nickname {
    /// Checks a nickname; the stored text is the trimmed input.
    pub fn try_new(raw: &str) -> (r: Result<Nickname, DomainError>)
        ensures
            r matches Ok(n) ==> nickname_rule(raw@) == Ok::<Seq<char>, DomainErrorView>(n@),
            r matches Err(e) ==> nickname_rule(raw@) == Err::<Seq<char>, DomainErrorView>(e@),
    {
        let trimmed = trim(raw);
        let count = trimmed.unicode_len();
        if count == 0 || count > 32 {
            return Err(
                DomainError::InvalidValue {
                    field: "nickname",
                    reason: String::from_str("长度必须在 1~32 个字符之间"),
                },
            );
        }
        if has_control(trimmed) {
            return Err(
                DomainError::InvalidValue {
                    field: "nickname",
                    reason: String::from_str("不允许包含控制字符"),
                },
            );
        }
        Ok(Nickname(String::from_str(trimmed)))
    }

    pub fn as_str(&self) -> (s: &str)
        ensures
            s@ == self@,
    {
        self.0.as_str()
    }

    /// The text that logs show: `Nickname(<name>)`.
    pub fn debug_text(&self) -> (s: String)
        ensures
            s@ == "Nickname("@ + self@ + ")"@,
    {
        let mut s = String::from_str("Nickname(");
        s.append(self.0.as_str());
        s.append(")");
        s
    }
}

/// A plain password: 8..=128 bytes without control characters. It exists only until it is
/// hashed and its text is shown only through `expose`.
pub struct PlainPassword(String);

impl View for PlainPassword {
    type V = Seq<char>;

    closed spec fn view(&self) -> Seq<char> {
        self.0@
    }
}

impl PlainPassword {
    /// Checks a password exactly as given.
    pub fn try_new(raw: &str) -> (r: Result<PlainPassword, DomainError>)
        ensures
            r matches Ok(p) ==> password_rule(raw@) == Ok::<Seq<char>, DomainErrorView>(p@),
            r matches Err(e) ==> password_rule(raw@) == Err::<Seq<char>, DomainErrorView>(e@),
    {
        let len = raw.len();
        if !(8 <= len && len <= 128) {
            return Err(
                DomainError::InvalidValue {
                    field: "password",
                    reason: String::from_str("长度必须在 8~128 字节之间"),
                },
            );
        }
        if has_control(raw) {
            return Err(
                DomainError::InvalidValue {
                    field: "password",
                    reason: String::from_str("不允许包含控制字符"),
                },
            );
        }
        Ok(PlainPassword(String::from_str(raw)))
    }

    pub fn expose(&self) -> (s: &str)
        ensures
            s@ == self@,
    {
        self.0.as_str()
    }

    /// Diagnostic form; never shows the password.
    pub fn debug_text(&self) -> (s: String)
        ensures
            s@ == "PlainPassword(***)"@,
    {
        String::from_str("PlainPassword(***)")
    }

    /// Display form; never shows the password.
    pub fn to_string(&self) -> (s: String)
        ensures
            s@ == "***"@,
    {
        String::from_str("***")
    }
}

/// A password hash in PHC format, produced by a `PasswordHasher`.
#[derive(Clone)]
pub struct PasswordHash(String);

impl View for PasswordHash {
    type V = Seq<char>;

    closed spec fn view(&self) -> Seq<char> {
        self.0@
    }
}

impl PasswordHash {
    pub fn new(hash: String) -> (h: PasswordHash)
        ensures
            h@ == hash@,
    {
        PasswordHash(hash)
    }

    pub fn expose(&self) -> (s: &str)
        ensures
            s@ == self@,
    {
        self.0.as_str()
    }

    /// Diagnostic form; never shows the hash.
    pub fn debug_text(&self) -> (s: String)
        ensures
            s@ == "PasswordHash(***)"@,
    {
        String::from_str("PasswordHash(***)")
    }
}

} // verus!
