//! What a user may see and change of their own profile.

use vstd::prelude::*;
use crate::error::HttpError;
use crate::keys::{first_with_id, User, UserDirectory, UserView};
use crate::state::AppState;

verus! {

/// The number that the UUID `text` stands for; `None` where it is no UUID.
pub uninterp spec fn uuid_value(text: Seq<char>) -> Option<u128>;

/// A user as others may see them: without the private key material.
#[derive(Debug)]
pub struct FilterUserDto {
    pub id: u128,
    pub name: String,
    pub email: String,
    pub public_key: Option<String>,
}

/// The mathematical content of a [`FilterUserDto`].
pub struct FilterUserView {
    pub id: u128,
    pub name: Seq<char>,
    pub email: Seq<char>,
    pub public_key: Option<Seq<char>>,
}

impl View for FilterUserDto {
    type V = FilterUserView;

    open spec fn view(&self) -> FilterUserView {
        FilterUserView {
            id: self.id,
            name: self.name@,
            email: self.email@,
            public_key: match self.public_key {
                Some(k) => Some(k@),
                None => None,
            },
        }
    }
}

/// What others may see of `user`.
pub open spec fn filtered(user: UserView) -> FilterUserView {
    FilterUserView {
        id: user.id,
        name: user.name,
        email: user.email,
        public_key: user.public_key,
    }
}

/// The user that a response carries.
#[derive(Debug)]
pub struct UserData {
    pub user: FilterUserDto,
}

/// The answer to a request about a user.
#[derive(Debug)]
pub struct UserResponseDto {
    pub status: String,
    pub data: UserData,
}

/// The new name of a user.
#[derive(Debug)]
pub struct NameUpdateDto {
    pub name: String,
}

/// The users of `s` with the first user that carries `id` renamed.
pub open spec fn renamed(s: Seq<UserView>, id: u128, name: Seq<char>) -> Seq<UserView>
    decreases s.len(),
{
    if s.len() == 0 {
        s
    } else if s[0].id == id {
        s.update(0, UserView { name, ..s[0] })
    } else {
        seq![s[0]] + renamed(s.drop_first(), id, name)
    }
}

/// Calls `Uuid::parse_str` and `as_u128` of `uuid`. Claims that the result
/// is the named function of the text.
#[verifier::external_body]
fn parse_uuid(text: &str) -> (res: Option<u128>)
    ensures
        res == uuid_value(text@),
{
    match uuid::Uuid::parse_str(text) {
        Ok(id) => Some(id.as_u128()),
        Err(_) => None,
    }
}

impl FilterUserDto {
    /// What others may see of `user`.
    pub fn filter_user(user: &User) -> (res: FilterUserDto)
        ensures
            res@ == filtered(user@),
    {
        FilterUserDto {
            id: user.id,
            name: user.name.clone(),
            email: user.email.clone(),
            public_key: match &user.public_key {
                Some(key) => Some(key.clone()),
                None => None,
            },
        }
    }
}

impl UserDirectory {
    /// Gives the first user that carries `id` the name `name`. Says whether
    /// there is such a user.
    pub fn update_user_name(&mut self, id: u128, name: &str) -> (found: bool)
        ensures
            found == first_with_id(old(self)@, id).is_some(),
            final(self)@ == renamed(old(self)@, id, name@),
            found ==> first_with_id(final(self)@, id) == Some(
                UserView { name: name@, ..first_with_id(old(self)@, id).unwrap() },
            ),
    {
        let mut i: usize = 0;
        assert(self@.skip(0) =~= self@);
        while i < self.users.len()
            invariant
                i <= self.users.len(),
                self@ == old(self)@,
                forall|j: int| 0 <= j < i ==> (#[trigger] self@[j]).id != id,
            decreases self.users.len() - i,
        {
            if self.users[i].id == id {
                let ghost before = self@;
                self.users[i].name = name.to_owned();
                proof {
                    let after = self@;
                    assert(after =~= before.update(
                        i as int,
                        UserView { name: name@, ..before[i as int] },
                    ));
                    lemma_renamed_at(before, id, name@, i as int);
                    lemma_first_with_id_at(before, id, i as int);
                    lemma_first_with_id_at(after, id, i as int);
                }
                return true;
            }
            i += 1;
        }
        proof {
            lemma_first_with_id_absent(self@, id);
            lemma_renamed_unchanged(self@, id, name@);
        }
        false
    }
}

proof fn lemma_first_with_id_at(s: Seq<UserView>, id: u128, at: int)
    requires
        0 <= at < s.len(),
        s[at].id == id,
        forall|j: int| 0 <= j < at ==> (#[trigger] s[j]).id != id,
    ensures
        first_with_id(s, id) == Some(s[at]),
    decreases at,
{
    if at > 0 {
        let rest = s.drop_first();
        assert(s[0].id != id);
        assert forall|j: int| 0 <= j < at - 1 implies (#[trigger] rest[j]).id != id by {
            assert(rest[j] == s[j + 1]);
        }
        lemma_first_with_id_at(rest, id, at - 1);
    }
}

proof fn lemma_first_with_id_absent(s: Seq<UserView>, id: u128)
    requires
        forall|j: int| 0 <= j < s.len() ==> (#[trigger] s[j]).id != id,
    ensures
        first_with_id(s, id).is_none(),
    decreases s.len(),
{
    if s.len() > 0 {
        let rest = s.drop_first();
        assert(s[0].id != id);
        assert forall|j: int| 0 <= j < rest.len() implies (#[trigger] rest[j]).id != id by {
            assert(rest[j] == s[j + 1]);
        }
        lemma_first_with_id_absent(rest, id);
    }
}

proof fn lemma_renamed_at(s: Seq<UserView>, id: u128, name: Seq<char>, at: int)
    requires
        0 <= at < s.len(),
        s[at].id == id,
        forall|j: int| 0 <= j < at ==> (#[trigger] s[j]).id != id,
    ensures
        renamed(s, id, name) == s.update(at, UserView { name, ..s[at] }),
    decreases at,
{
    if at > 0 {
        let rest = s.drop_first();
        assert(s[0].id != id);
        assert forall|j: int| 0 <= j < at - 1 implies (#[trigger] rest[j]).id != id by {
            assert(rest[j] == s[j + 1]);
        }
        lemma_renamed_at(rest, id, name, at - 1);
        assert(seq![s[0]] + rest.update(at - 1, UserView { name, ..rest[at - 1] }) =~= s.update(
            at,
            UserView { name, ..s[at] },
        ));
    }
}

/// The answer that carries `user`.
pub fn user_response(user: FilterUserDto) -> (response: UserResponseDto)
    ensures
        response.status@ == "success"@,
        response.data.user == user,
{
    UserResponseDto { status: "success".to_owned(), data: UserData { user } }
}

/// The caller's own profile, as others may see it.
pub fn get_me(user: &User) -> (response: UserResponseDto)
    ensures
        response.status@ == "success"@,
        response.data.user@ == filtered(user@),
{
    user_response(FilterUserDto::filter_user(user))
}

/// Why a change of name is turned down, if it is, as the status and the
/// message of the answer: the name is empty (`400`), the identifier is no
/// UUID (`400`), or no user carries it (`500`).
pub open spec fn rename_fault(users: Seq<UserView>, user_id: Seq<char>, name: Seq<char>) -> Option<
    (u16, Seq<char>),
> {
    if name.len() == 0 {
        Some((400u16, "Name must not be empty"@))
    } else {
        match uuid_value(user_id) {
            None => Some((400u16, "Invalid user id"@)),
            Some(id) => if first_with_id(users, id).is_none() {
                Some((500u16, "User not found"@))
            } else {
                None
            },
        }
    }
}

/// Changes the caller's name. The identifier arrives as the text of a
/// UUID. An empty name or an identifier that is no UUID is answered with
/// `400`, a user that is not there with `500`; each leaves the state as it
/// was.
pub fn update_user_name(app_state: &mut AppState, user_id: &str, body: &NameUpdateDto) -> (res:
    Result<UserResponseDto, HttpError>)
    requires
        old(app_state).wf(),
    ensures
        final(app_state).wf(),
        final(app_state).env == old(app_state).env,
        final(app_state).db_client.files@ == old(app_state).db_client.files@,
        final(app_state).db_client.files.next_id() == old(app_state).db_client.files.next_id(),
        match res {
            Ok(response) => {
                let id = uuid_value(user_id@).unwrap();
                let users = old(app_state).db_client.users@;
                &&& rename_fault(users, user_id@, body.name@).is_none()
                &&& final(app_state).db_client.users@ == renamed(users, id, body.name@)
                &&& response.status@ == "success"@
                &&& response.data.user@ == filtered(
                    UserView { name: body.name@, ..first_with_id(users, id).unwrap() },
                )
            },
            Err(e) => {
                &&& final(app_state).db_client.users@ == old(app_state).db_client.users@
                &&& rename_fault(old(app_state).db_client.users@, user_id@, body.name@) == Some(
                    (e.status, e.message@),
                )
            },
        },
{
    if body.name.as_str().is_empty() {
        return Err(HttpError::bad_request("Name must not be empty".to_owned()));
    }
    let id = match parse_uuid(user_id) {
        Some(id) => id,
        None => return Err(HttpError::bad_request("Invalid user id".to_owned())),
    };
    if !app_state.db_client.users.update_user_name(id, body.name.as_str()) {
        proof {
            lemma_renamed_unchanged(old(app_state).db_client.users@, id, body.name@);
        }
        return Err(HttpError::server_error("User not found".to_owned()));
    }
    match app_state.db_client.users.get_user_by_id(id) {
        Some(user) => Ok(get_me(user)),
        None => Err(HttpError::server_error("User not found".to_owned())),
    }
}

/// Renaming a user that is not there changes nothing.
pub proof fn lemma_renamed_unchanged(s: Seq<UserView>, id: u128, name: Seq<char>)
    requires
        first_with_id(s, id).is_none(),
    ensures
        renamed(s, id, name) == s,
    decreases s.len(),
{
    if s.len() > 0 {
        lemma_renamed_unchanged(s.drop_first(), id, name);
        assert(seq![s[0]] + s.drop_first() =~= s);
    }
}

} // verus!
