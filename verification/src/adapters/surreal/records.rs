//! What the stored records become in the domain, and the outcomes of writing them.
use vstd::prelude::*;
use crate::adapters::surreal::graph_read::{record_key, thing_to_uuid};
use crate::domain::user::{PersonalAccessToken, User};
use crate::domain::work::Work;
use crate::ports::repository::RepoError;
use crate::text::{contains_str, contains_text, owned, same_text};

verus! {

/// A stored work. `id` is the record id as SurrealDB renders it; `progress_pct` is the stored
/// progress already taken as an integer (none when absent or not a number); the rating is
/// carried as IEEE-754 bits.
#[derive(Debug)]
pub struct WorkRecord {
    pub id: Option<String>,
    pub title: String,
    pub author: String,
    pub isbn: Option<String>,
    pub open_library_id: Option<String>,
    pub status: String,
    pub error_msg: Option<String>,
    pub created_at: String,
    pub updated_at: String,
    pub progress_pct: Option<i32>,
    pub last_action: Option<String>,
    pub reading_status: Option<String>,
    pub cover_image_url: Option<String>,
    pub page_count: Option<i32>,
    pub publisher: Option<String>,
    pub average_rating_bits: Option<u64>,
    pub preview_link: Option<String>,
}

/// The id a work record is known by: the one it was fetched or created under, else its
/// stored id without quotes, else empty.
pub open spec fn work_id_of(id: Option<String>, id_override: Option<String>) -> Seq<char> {
    match id_override {
        Some(o) => o@,
        None => match id {
            Some(t) => record_key(t@),
            None => Seq::empty(),
        },
    }
}

/// The work of a stored record.
pub open spec fn work_of(rec: WorkRecord, id_override: Option<String>, w: Work) -> bool {
    &&& w.id@ == work_id_of(rec.id, id_override)
    &&& w.title == rec.title
    &&& w.author == rec.author
    &&& w.isbn == rec.isbn
    &&& w.open_library_id == rec.open_library_id
    &&& w.status == rec.status
    &&& w.error_msg == rec.error_msg
    &&& w.created_at == rec.created_at
    &&& w.updated_at == rec.updated_at
    &&& w.progress_pct == match rec.progress_pct {
        Some(p) => p,
        None => 0,
    }
    &&& w.last_action@ == match rec.last_action {
        Some(a) => a@,
        None => Seq::empty(),
    }
    &&& w.reading_status == rec.reading_status
    &&& w.cover_image_url == rec.cover_image_url
    &&& w.page_count == rec.page_count
    &&& w.publisher == rec.publisher
    &&& w.average_rating_bits == rec.average_rating_bits
    &&& w.preview_link == rec.preview_link
}

/// The work of a stored record, known by `id_override` when given.
pub fn record_to_work(rec: WorkRecord, id_override: Option<String>) -> (w: Work)
    ensures
        work_of(rec, id_override, w),
{
    let id = match id_override {
        Some(o) => o,
        None => match &rec.id {
            Some(t) => thing_to_uuid(t.as_str()),
            None => String::new(),
        },
    };
    Work {
        id,
        title: rec.title,
        author: rec.author,
        isbn: rec.isbn,
        open_library_id: rec.open_library_id,
        status: rec.status,
        error_msg: rec.error_msg,
        created_at: rec.created_at,
        updated_at: rec.updated_at,
        progress_pct: match rec.progress_pct {
            Some(p) => p,
            None => 0,
        },
        last_action: match rec.last_action {
            Some(a) => a,
            None => String::new(),
        },
        reading_status: rec.reading_status,
        cover_image_url: rec.cover_image_url,
        page_count: rec.page_count,
        publisher: rec.publisher,
        average_rating_bits: rec.average_rating_bits,
        preview_link: rec.preview_link,
    }
}

/// The work of the first record a query returned, if any (looked up by a field, so known by
/// its stored id).
pub fn first_work(records: Vec<WorkRecord>) -> (r: Option<Work>)
    ensures
        records@.len() == 0 <==> r is None,
        r matches Some(w) ==> work_of(records@[0], None, w),
{
    let mut records = records;
    if records.len() == 0 {
        return None;
    }
    let ghost first = records@[0];
    let rec = records.swap_remove(0);
    assert(rec == first);
    Some(record_to_work(rec, None))
}

/// The outcome of creating a work under `work_id`: the created work, or an error when the
/// store returned no record.
pub fn created_work(created: Option<WorkRecord>, work_id: String) -> (r: Result<Work, RepoError>)
    ensures
        match created {
            Some(rec) => r matches Ok(w) && work_of(rec, Some(work_id), w),
            None => r matches Err(RepoError::Internal(m)) && m@ == "no record returned"@,
        },
{
    match created {
        Some(rec) => Ok(record_to_work(rec, Some(work_id))),
        None => Err(RepoError::Internal(owned("no record returned"))),
    }
}

/// The outcome of resetting a failed work to pending: the reset work, or `NotFound` when no
/// failed work with that id was updated.
pub fn reset_outcome(records: Vec<WorkRecord>, id: String) -> (r: Result<Work, RepoError>)
    ensures
        records@.len() == 0 ==> r matches Err(RepoError::NotFound),
        records@.len() > 0 ==> (r matches Ok(w) && work_of(records@[0], Some(id), w)),
{
    let mut records = records;
    if records.len() == 0 {
        return Err(RepoError::NotFound);
    }
    let ghost first = records@[0];
    let rec = records.swap_remove(0);
    assert(rec == first);
    Ok(record_to_work(rec, Some(id)))
}

/// A stored account. `id` is the record id as SurrealDB renders it.
#[derive(Debug)]
pub struct UserRecord {
    pub id: Option<String>,
    pub email: String,
    pub password_hash: String,
    pub role: String,
}

/// The user of a stored account: its id without quotes (empty when absent).
pub fn record_to_user(rec: UserRecord) -> (u: User)
    ensures
        u.id@ == match rec.id {
            Some(t) => record_key(t@),
            None => Seq::empty(),
        },
        u.email == rec.email,
        u.password_hash == rec.password_hash,
        u.role == rec.role,
{
    let id = match &rec.id {
        Some(t) => thing_to_uuid(t.as_str()),
        None => String::new(),
    };
    User { id, email: rec.email, password_hash: rec.password_hash, role: rec.role }
}

/// A store error on account creation names a taken email when its text says that the record
/// already exists or that a UNIQUE index refused it.
pub open spec fn names_taken_email(message: Seq<char>) -> bool {
    contains_text(message, "already exists"@) || contains_text(message, "UNIQUE"@)
}

/// The error of a failed account creation, from the store's error text.
pub fn account_creation_error(message: String) -> (e: RepoError)
    ensures
        names_taken_email(message@) ==> e is EmailAlreadyExists,
        !names_taken_email(message@) ==> e == RepoError::Internal(message),
{
    if contains_str(message.as_str(), "already exists") || contains_str(message.as_str(), "UNIQUE") {
        RepoError::EmailAlreadyExists
    } else {
        RepoError::Internal(message)
    }
}

/// The account created under `user_id` for `email`: an admin with the given hash.
pub fn created_user(created: Option<UserRecord>, user_id: String) -> (r: Result<User, RepoError>)
    ensures
        match created {
            Some(rec) => r matches Ok(u) && u.id == user_id && u.email == rec.email && u.password_hash
                == rec.password_hash && u.role == rec.role,
            None => r matches Err(RepoError::Internal(m)) && m@ == "no record returned"@,
        },
{
    match created {
        None => Err(RepoError::Internal(owned("no record returned"))),
        Some(rec) => Ok(User { id: user_id, email: rec.email, password_hash: rec.password_hash, role: rec.role }),
    }
}

/// A stored personal access token. `id` is the record id as SurrealDB renders it; the
/// timestamps are already rendered in RFC 3339.
#[derive(Debug)]
pub struct PatRecord {
    pub id: Option<String>,
    pub user_id: String,
    pub name: String,
    pub token_hash: String,
    pub created_at: Option<String>,
    pub revoked_at: Option<String>,
}

/// The token listed for a stored record (its id as rendered, quotes included).
pub open spec fn token_of(rec: PatRecord, t: PersonalAccessToken) -> bool {
    &&& rec.id matches Some(id) && t.id == id
    &&& t.user_id == rec.user_id
    &&& t.name == rec.name
    &&& t.created_at@ == match rec.created_at {
        Some(c) => c@,
        None => Seq::empty(),
    }
    &&& t.revoked_at == rec.revoked_at
}

impl PatRecord {
    /// The token of a stored record; a record without an id is an error.
    pub fn into_domain(self) -> (r: Result<PersonalAccessToken, RepoError>)
        ensures
            self.id is None ==> (r matches Err(RepoError::Internal(m)) && m@ == "record returned without an ID"@),
            self.id is Some ==> (r matches Ok(t) && token_of(self, t)),
    {
        match self.id {
            None => Err(RepoError::Internal(owned("record returned without an ID"))),
            Some(id) => Ok(PersonalAccessToken {
                id,
                user_id: self.user_id,
                name: self.name,
                created_at: match self.created_at {
                    Some(c) => c,
                    None => String::new(),
                },
                revoked_at: self.revoked_at,
            }),
        }
    }
}

/// A record of a token that is still active and carries the given hash.
pub open spec fn active_with_hash(rec: PatRecord, hash: Seq<char>) -> bool {
    rec.token_hash@ == hash && rec.revoked_at is None
}

/// The position of the first active record with the given hash, if any.
pub open spec fn first_with_hash(records: Seq<PatRecord>, hash: Seq<char>) -> Option<int>
    decreases records.len(),
{
    if records.len() == 0 {
        None
    } else if active_with_hash(records[0], hash) {
        Some(0)
    } else {
        match first_with_hash(records.drop_first(), hash) {
            Some(i) => Some(i + 1),
            None => None,
        }
    }
}

/// Records before position `k` that do not match do not change which record matches first.
pub proof fn lemma_first_with_hash(records: Seq<PatRecord>, hash: Seq<char>, k: int)
    requires
        0 <= k <= records.len(),
        forall|i: int| 0 <= i < k ==> !active_with_hash(#[trigger] records[i], hash),
    ensures
        first_with_hash(records, hash) == match first_with_hash(records.skip(k), hash) {
            Some(i) => Some(i + k),
            None => None::<int>,
        },
    decreases k,
{
    if k > 0 {
        assert(!active_with_hash(records[0], hash));
        assert(records.drop_first().skip(k - 1) =~= records.skip(k));
        lemma_first_with_hash(records.drop_first(), hash, k - 1);
    } else {
        assert(records.skip(0) =~= records);
    }
}

/// The active token stored with the given hash: the first record that is not revoked and
/// whose hash matches.
pub fn find_by_hash(records: Vec<PatRecord>, token_hash: &str) -> (r: Result<Option<PersonalAccessToken>, RepoError>)
    ensures
        match first_with_hash(records@, token_hash@) {
            None => r matches Ok(None),
            Some(i) => match records@[i].id {
                None => r matches Err(RepoError::Internal(_)),
                Some(_) => r matches Ok(Some(t)) && token_of(records@[i], t),
            },
        },
{
    let mut recs = records;
    let ghost all = recs@;
    let mut i: usize = 0;
    while i < recs.len()
        invariant
            i <= recs.len(),
            recs@ == all,
            all == records@,
            forall|k: int| 0 <= k < i ==> !active_with_hash(#[trigger] all[k], token_hash@),
        decreases recs.len() - i,
    {
        let active = match &recs[i].revoked_at {
            Some(_) => false,
            None => true,
        };
        if active && same_text(recs[i].token_hash.as_str(), token_hash) {
            proof {
                lemma_first_with_hash(all, token_hash@, i as int);
                assert(all.skip(i as int)[0] == all[i as int]);
                assert(first_with_hash(all.skip(i as int), token_hash@) == Some(0int));
                assert(first_with_hash(all, token_hash@) == Some(i as int));
            }
            let ghost found = recs@[i as int];
            let rec = recs.swap_remove(i);
            assert(rec == found);
            return match rec.into_domain() {
                Ok(t) => Ok(Some(t)),
                Err(e) => Err(e),
            };
        }
        i = i + 1;
    }
    proof {
        lemma_first_with_hash(all, token_hash@, i as int);
        assert(all.skip(i as int).len() == 0);
    }
    Ok(None)
}

/// The outcome of a revocation check: a token that does not exist, or that another user
/// owns, is reported as not found; the owner may revoke it.
pub fn revocation_check(found: Option<PatRecord>, user_id: &str) -> (r: Result<(), RepoError>)
    ensures
        match found {
            None => r matches Err(RepoError::NotFound),
            Some(rec) => if rec.user_id@ == user_id@ {
                r is Ok
            } else {
                r matches Err(RepoError::NotFound)
            },
        },
{
    match found {
        None => Err(RepoError::NotFound),
        Some(rec) => if same_text(rec.user_id.as_str(), user_id) {
            Ok(())
        } else {
            Err(RepoError::NotFound)
        },
    }
}

/// A user never revokes another user's token: the check passes only for the owner.
pub proof fn law_only_owners_revoke(found: Option<PatRecord>, user_id: Seq<char>, r: Result<(), RepoError>)
    requires
        match found {
            None => r matches Err(RepoError::NotFound),
            Some(rec) => if rec.user_id@ == user_id {
                r is Ok
            } else {
                r matches Err(RepoError::NotFound)
            },
        },
    ensures
        r is Ok ==> (found matches Some(rec) && rec.user_id@ == user_id),
{
}

/// The outcome of creating a token under `token_id`: its id, or an error when the store
/// returned no record.
pub fn created_token(created: bool, token_id: String) -> (r: Result<String, RepoError>)
    ensures
        created ==> r == Ok::<String, RepoError>(token_id),
        !created ==> (r matches Err(RepoError::Internal(m)) && m@ == "no record returned"@),
{
    if created {
        Ok(token_id)
    } else {
        Err(RepoError::Internal(owned("no record returned")))
    }
}

/// A count read back from a `count()` query; a missing count is zero.
pub fn count_or_zero(count: Option<u64>) -> (n: u64)
    ensures
        n == match count {
            Some(c) => c,
            None => 0,
        },
{
    match count {
        Some(c) => c,
        None => 0,
    }
}

/// A revoked token never authenticates: the lookup by hash passes over revoked records, so a
/// store whose records with the hash are all revoked yields none.
pub proof fn law_revoked_tokens_are_not_found(records: Seq<PatRecord>, hash: Seq<char>)
    requires
        forall|i: int| 0 <= i < records.len() && #[trigger] records[i].token_hash@ == hash ==> records[i].revoked_at is Some,
    ensures
        first_with_hash(records, hash) is None,
    decreases records.len(),
{
    if records.len() > 0 {
        assert(records[0].token_hash@ == hash ==> records[0].revoked_at is Some);
        assert forall|i: int| 0 <= i < records.drop_first().len() && #[trigger] records.drop_first()[i].token_hash@ == hash
            implies records.drop_first()[i].revoked_at is Some by {
            assert(records.drop_first()[i] == records[i + 1]);
        }
        law_revoked_tokens_are_not_found(records.drop_first(), hash);
    }
}

/// The outcome of a status update: `NotFound` when no work with the id was updated.
pub fn status_update_outcome(updated: bool) -> (r: Result<(), RepoError>)
    ensures
        updated ==> r is Ok,
        !updated ==> r matches Err(RepoError::NotFound),
{
    if updated {
        Ok(())
    } else {
        Err(RepoError::NotFound)
    }
}

} // verus!
