use vstd::prelude::*;

verus! {

/// What the store knows of one account, as mathematical values: the
/// account's current nickname and its password.
pub type Account = (Seq<char>, Seq<char>);

/// The account table as a map from e-mail address to account.
pub type AccountTable = Map<Seq<char>, Account>;

/// The stored data of one account.
pub struct UserData {
    nick: String,
    password: String,
}

impl View for UserData {
    type V = Account;

    closed spec fn view(&self) -> Account {
        (self.nick@, self.password@)
    }
}

impl UserData {
    fn new(nick: String, password: String) -> (u: Self)
        ensures
            u@ == (nick@, password@),
    {
        UserData { nick, password }
    }
}

/// Why an account operation was refused.
#[derive(Clone, Copy, Debug, PartialEq, Eq, Structural)]
pub enum AuthError {
    /// A sign-up named an e-mail address that already has an account.
    UserExists,
    /// No account has the given e-mail address.
    UserNotFound,
    /// The password does not match the account's.
    InvalidPassword,
}

impl AuthError {
    /// The text that the server reports for this error.
    pub open spec fn spec_message(self) -> Seq<char> {
        match self {
            AuthError::UserExists => "User with email {email} already exists"@,
            AuthError::UserNotFound => "User not found"@,
            AuthError::InvalidPassword => "Invalid password"@,
        }
    }

    /// The text that the server reports for this error.
    pub fn message(&self) -> (s: String)
        ensures
            s@ == self.spec_message(),
    {
        match self {
            AuthError::UserExists => "User with email {email} already exists".to_string(),
            AuthError::UserNotFound => "User not found".to_string(),
            AuthError::InvalidPassword => "Invalid password".to_string(),
        }
    }
}

/// The result of an account operation, with the string taken by its view.
pub open spec fn result_view(r: Result<String, AuthError>) -> Result<Seq<char>, AuthError> {
    match r {
        Ok(s) => Ok(s@),
        Err(e) => Err(e),
    }
}

/// Sign-up on a table: refused when the address is taken, otherwise a new
/// account whose nickname is the address itself.
pub open spec fn signup_spec(t: AccountTable, email: Seq<char>, password: Seq<char>) -> (
    AccountTable,
    Result<Seq<char>, AuthError>,
) {
    if t.contains_key(email) {
        (t, Err(AuthError::UserExists))
    } else {
        (t.insert(email, (email, password)), Ok(email))
    }
}

/// Log-in on a table: the account's nickname when the address is known and
/// the password matches.
pub open spec fn login_spec(t: AccountTable, email: Seq<char>, password: Seq<char>) -> Result<
    Seq<char>,
    AuthError,
> {
    if !t.contains_key(email) {
        Err(AuthError::UserNotFound)
    } else if t[email].1 != password {
        Err(AuthError::InvalidPassword)
    } else {
        Ok(t[email].0)
    }
}

/// Nickname change on a table: the account's nickname becomes `nick`, its
/// password stays.
pub open spec fn update_nick_spec(t: AccountTable, email: Seq<char>, nick: Seq<char>) -> (
    AccountTable,
    Result<Seq<char>, AuthError>,
) {
    if !t.contains_key(email) {
        (t, Err(AuthError::UserNotFound))
    } else {
        (t.insert(email, (nick, t[email].1)), Ok(nick))
    }
}

/// The account store: accounts keyed by e-mail address.
pub struct Login {
    users: Vec<(String, UserData)>,
}

/// The table that a sequence of entries stands for; a later entry for a key
/// overrides an earlier one.
pub open spec fn entries_table(s: Seq<(String, UserData)>) -> AccountTable
    decreases s.len(),
{
    if s.len() == 0 {
        Map::empty()
    } else {
        entries_table(s.drop_last()).insert(s.last().0@, s.last().1@)
    }
}

/// No two entries share an e-mail address.
pub open spec fn keys_unique(s: Seq<(String, UserData)>) -> bool {
    forall|i: int, j: int| 0 <= i < j < s.len() ==> s[i].0@ != s[j].0@
}

proof fn lemma_table_dom(s: Seq<(String, UserData)>, k: Seq<char>)
    ensures
        entries_table(s).contains_key(k) <==> exists|i: int| 0 <= i < s.len() && s[i].0@ == k,
    decreases s.len(),
{
    if s.len() > 0 {
        lemma_table_dom(s.drop_last(), k);
        if entries_table(s).contains_key(k) && s.last().0@ != k {
            let i = choose|i: int| 0 <= i < s.len() - 1 && s.drop_last()[i].0@ == k;
            assert(s[i].0@ == k);
        }
        if exists|i: int| 0 <= i < s.len() && s[i].0@ == k {
            let i = choose|i: int| 0 <= i < s.len() && s[i].0@ == k;
            if i < s.len() - 1 {
                assert(s.drop_last()[i].0@ == k);
            }
        }
    }
}

proof fn lemma_table_at(s: Seq<(String, UserData)>, i: int)
    requires
        keys_unique(s),
        0 <= i < s.len(),
    ensures
        entries_table(s).contains_key(s[i].0@),
        entries_table(s)[s[i].0@] == s[i].1@,
    decreases s.len(),
{
    if i < s.len() - 1 {
        assert(keys_unique(s.drop_last()));
        lemma_table_at(s.drop_last(), i);
        assert(s.drop_last()[i] == s[i]);
        assert(s[i].0@ != s.last().0@);
    }
}

proof fn lemma_table_update(s: Seq<(String, UserData)>, i: int, e: (String, UserData))
    requires
        keys_unique(s),
        0 <= i < s.len(),
        e.0@ == s[i].0@,
    ensures
        keys_unique(s.update(i, e)),
        entries_table(s.update(i, e)) == entries_table(s).insert(e.0@, e.1@),
    decreases s.len(),
{
    let s2 = s.update(i, e);
    if i == s.len() - 1 {
        assert(s2.drop_last() == s.drop_last());
    } else {
        assert(keys_unique(s.drop_last()));
        lemma_table_update(s.drop_last(), i, e);
        assert(s2.drop_last() == s.drop_last().update(i, e));
        assert(s.last().0@ != e.0@);
        assert(entries_table(s2) =~= entries_table(s).insert(e.0@, e.1@));
    }
}

proof fn lemma_table_push(s: Seq<(String, UserData)>, e: (String, UserData))
    requires
        keys_unique(s),
        !entries_table(s).contains_key(e.0@),
    ensures
        keys_unique(s.push(e)),
        entries_table(s.push(e)) == entries_table(s).insert(e.0@, e.1@),
{
    lemma_table_dom(s, e.0@);
    assert(s.push(e).drop_last() == s);
}

impl View for Login {
    type V = AccountTable;

    closed spec fn view(&self) -> AccountTable {
        entries_table(self.users@)
    }
}

impl Login {
    #[verifier::type_invariant]
    closed spec fn inv(self) -> bool {
        keys_unique(self.users@)
    }

    /// An empty store.
    pub fn new() -> (l: Self)
        ensures
            l@ == Map::<Seq<char>, Account>::empty(),
    {
        Login { users: Vec::new() }
    }

    /// The position of the entry for `email`, if there is one.
    fn find(&self, email: &String) -> (r: Option<usize>)
        ensures
            match r {
                Some(i) => i < self.users@.len() && self.users@[i as int].0@ == email@,
                None => forall|i: int| 0 <= i < self.users@.len() ==> self.users@[i].0@ != email@,
            },
    {
        let mut i: usize = 0;
        while i < self.users.len()
            invariant
                i <= self.users@.len(),
                forall|j: int| 0 <= j < i ==> self.users@[j].0@ != email@,
            decreases self.users@.len() - i,
        {
            if self.users[i].0 == *email {
                return Some(i);
            }
            i = i + 1;
        }
        None
    }

    /// Opens an account for `email` whose nickname is the address itself.
    /// Refused with `UserExists` when the address already has one.
    pub fn signup(&mut self, email: String, password: String) -> (r: Result<String, AuthError>)
        ensures
            (final(self)@, result_view(r)) == signup_spec(old(self)@, email@, password@),
    {
        proof {
            use_type_invariant(&*self);
        }
        match self.find(&email) {
            Some(i) => {
                proof {
                    lemma_table_at(self.users@, i as int);
                }
                Err(AuthError::UserExists)
            },
            None => {
                proof {
                    lemma_table_dom(self.users@, email@);
                }
                let entry = (email.clone(), UserData::new(email.clone(), password));
                let mut users = Vec::new();
                std::mem::swap(&mut users, &mut self.users);
                proof {
                    lemma_table_push(users@, entry);
                }
                users.push(entry);
                self.users = users;
                Ok(email)
            },
        }
    }

    /// The nickname of the account for `email`, when `password` is its
    /// password. The store is left as it was.
    pub fn login(&mut self, email: String, password: String) -> (r: Result<String, AuthError>)
        ensures
            final(self)@ == old(self)@,
            result_view(r) == login_spec(old(self)@, email@, password@),
    {
        proof {
            use_type_invariant(&*self);
        }
        match self.find(&email) {
            Some(i) => {
                proof {
                    lemma_table_at(self.users@, i as int);
                }
                if self.users[i].1.password != password {
                    Err(AuthError::InvalidPassword)
                } else {
                    Ok(self.users[i].1.nick.clone())
                }
            },
            None => {
                proof {
                    lemma_table_dom(self.users@, email@);
                }
                Err(AuthError::UserNotFound)
            },
        }
    }

    /// Sets the nickname of the account for `email` to `nick` and returns
    /// `nick`.
    pub fn update_nick(&mut self, email: String, nick: String) -> (r: Result<String, AuthError>)
        ensures
            (final(self)@, result_view(r)) == update_nick_spec(old(self)@, email@, nick@),
    {
        proof {
            use_type_invariant(&*self);
        }
        match self.find(&email) {
            Some(i) => {
                proof {
                    lemma_table_at(self.users@, i as int);
                }
                let data = UserData::new(nick.clone(), self.users[i].1.password.clone());
                let entry = (self.users[i].0.clone(), data);
                let mut users = Vec::new();
                std::mem::swap(&mut users, &mut self.users);
                proof {
                    lemma_table_update(users@, i as int, entry);
                }
                users.set(i, entry);
                self.users = users;
                Ok(nick)
            },
            None => {
                proof {
                    lemma_table_dom(self.users@, email@);
                }
                Err(AuthError::UserNotFound)
            },
        }
    }
}

impl Default for Login {
    fn default() -> (l: Self)
        ensures
            l@ == Map::<Seq<char>, Account>::empty(),
    {
        Login::new()
    }
}


/// After a sign-up with a fresh address, logging in with that address and
/// the same password gives the address back as the nickname.
pub proof fn law_signup_then_login(t: AccountTable, email: Seq<char>, password: Seq<char>)
    requires
        !t.contains_key(email),
    ensures
        signup_spec(t, email, password).1 == Ok::<Seq<char>, AuthError>(email),
        login_spec(signup_spec(t, email, password).0, email, password) == Ok::<
            Seq<char>,
            AuthError,
        >(email),
{
}

/// After a sign-up with a fresh address, logging in with any other password
/// is refused with `InvalidPassword`.
pub proof fn law_signup_then_wrong_password(
    t: AccountTable,
    email: Seq<char>,
    password: Seq<char>,
    other: Seq<char>,
)
    requires
        !t.contains_key(email),
        other != password,
    ensures
        login_spec(signup_spec(t, email, password).0, email, other) == Err::<Seq<char>, AuthError>(
            AuthError::InvalidPassword,
        ),
{
}

/// An address can be signed up once: a second sign-up with it is refused
/// with `UserExists` and leaves the table as it was.
pub proof fn law_signup_twice(
    t: AccountTable,
    email: Seq<char>,
    first: Seq<char>,
    second: Seq<char>,
)
    ensures
        ({
            let t1 = signup_spec(t, email, first).0;
            &&& signup_spec(t1, email, second).0 == t1
            &&& signup_spec(t1, email, second).1 == Err::<Seq<char>, AuthError>(
                AuthError::UserExists,
            )
        }),
{
}

/// Logging in to an account after a nickname change gives the new nickname,
/// with the password that the account had before.
pub proof fn law_update_nick_then_login(t: AccountTable, email: Seq<char>, nick: Seq<char>)
    requires
        t.contains_key(email),
    ensures
        login_spec(update_nick_spec(t, email, nick).0, email, t[email].1) == Ok::<
            Seq<char>,
            AuthError,
        >(nick),
{
}

/// A sign-up or a nickname change for one address leaves the outcome of
/// logging in to every other address unchanged.
pub proof fn law_other_accounts_unaffected(
    t: AccountTable,
    email: Seq<char>,
    value: Seq<char>,
    other: Seq<char>,
    password: Seq<char>,
)
    requires
        other != email,
    ensures
        login_spec(signup_spec(t, email, value).0, other, password) == login_spec(
            t,
            other,
            password,
        ),
        login_spec(update_nick_spec(t, email, value).0, other, password) == login_spec(
            t,
            other,
            password,
        ),
{
}

/// Every operation that is refused leaves the table as it was.
pub proof fn law_refusal_changes_nothing(
    t: AccountTable,
    email: Seq<char>,
    value: Seq<char>,
)
    ensures
        signup_spec(t, email, value).1 is Err ==> signup_spec(t, email, value).0 == t,
        update_nick_spec(t, email, value).1 is Err ==> update_nick_spec(t, email, value).0 == t,
{
}

/// Only a sign-up adds an address to the table, and no operation removes
/// one.
pub proof fn law_addresses_only_grow(t: AccountTable, email: Seq<char>, value: Seq<char>)
    ensures
        signup_spec(t, email, value).0.dom() == t.dom().insert(email),
        update_nick_spec(t, email, value).0.dom() == t.dom(),
{
    assert(signup_spec(t, email, value).0.dom() =~= t.dom().insert(email));
    assert(update_nick_spec(t, email, value).0.dom() =~= t.dom());
}

/// Log-in succeeds exactly for a known address with its password and gives
/// that account's nickname; an unknown address is `UserNotFound`, a wrong
/// password `InvalidPassword`.
pub proof fn law_login_outcomes(t: AccountTable, email: Seq<char>, password: Seq<char>)
    ensures
        login_spec(t, email, password) is Ok <==> (t.contains_key(email) && t[email].1
            == password),
        login_spec(t, email, password) matches Ok(n) ==> n == t[email].0,
        !t.contains_key(email) ==> login_spec(t, email, password) == Err::<Seq<char>, AuthError>(
            AuthError::UserNotFound,
        ),
        t.contains_key(email) && t[email].1 != password ==> login_spec(t, email, password)
            == Err::<Seq<char>, AuthError>(AuthError::InvalidPassword),
{
}

/// A rename of an unknown address is refused with `UserNotFound`; a rename
/// of a known one gives back the new nickname and keeps the password.
pub proof fn law_update_nick_outcomes(t: AccountTable, email: Seq<char>, nick: Seq<char>)
    ensures
        !t.contains_key(email) ==> update_nick_spec(t, email, nick) == (
            t,
            Err::<Seq<char>, AuthError>(AuthError::UserNotFound),
        ),
        t.contains_key(email) ==> update_nick_spec(t, email, nick).1 == Ok::<
            Seq<char>,
            AuthError,
        >(nick) && update_nick_spec(t, email, nick).0[email] == (nick, t[email].1),
{
}

/// A sign-up of a known address is refused with `UserExists` and changes
/// nothing, whatever password it gives.
pub proof fn law_signup_existing(t: AccountTable, email: Seq<char>, password: Seq<char>)
    requires
        t.contains_key(email),
    ensures
        signup_spec(t, email, password) == (t, Err::<Seq<char>, AuthError>(AuthError::UserExists)),
{
}

} // verus!
