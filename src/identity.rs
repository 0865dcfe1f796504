use vstd::prelude::*;

verus! {

/// A committer profile and the session addresses it has been seen from.
pub struct User {
    pub name: String,
    pub email: String,
    pub ip_addresses: Vec<String>,
}

pub struct UserView {
    pub name: Seq<char>,
    pub email: Seq<char>,
    pub addresses: Seq<Seq<char>>,
}

impl View for User {
    type V = UserView;

    open spec fn view(&self) -> UserView {
        UserView {
            name: self.name@,
            email: self.email@,
            addresses: strings(self.ip_addresses@),
        }
    }
}

/// The persisted registry of profiles, in insertion order.
pub struct Config {
    pub users: Vec<User>,
}

impl View for Config {
    type V = Seq<UserView>;

    open spec fn view(&self) -> Seq<UserView> {
        user_views(self.users@)
    }
}

/// The characters of each string, in order.
pub open spec fn strings(s: Seq<String>) -> Seq<Seq<char>> {
    s.map_values(|a: String| a@)
}

/// The view of each profile, in order.
pub open spec fn user_views(s: Seq<User>) -> Seq<UserView> {
    s.map_values(|u: User| u@)
}

/// The characters of an optional string.
pub open spec fn opt_view(o: Option<&str>) -> Option<Seq<char>> {
    match o {
        Some(s) => Some(s@),
        None => None,
    }
}

/// A registry whose profiles each list an address at most once and carry
/// distinct name and email pairs.
pub open spec fn registry_wf(users: Seq<UserView>) -> bool {
    &&& forall|i: int| 0 <= i < users.len() ==> (#[trigger] users[i]).addresses.no_duplicates()
    &&& forall|i: int, j: int|
        0 <= i < j < users.len() ==> !(users[i].name == users[j].name && users[i].email
            == users[j].email)
}

/// `i` is the first profile seen from `ip`.
pub open spec fn first_at_address(users: Seq<UserView>, ip: Seq<char>, i: int) -> bool {
    &&& 0 <= i < users.len()
    &&& users[i].addresses.contains(ip)
    &&& forall|j: int| 0 <= j < i ==> !users[j].addresses.contains(ip)
}

/// The profile that a session at `ip` resolves to: the first one that lists
/// `ip`, and none for an empty address.
pub open spec fn resolves_to(users: Seq<UserView>, ip: Seq<char>, r: Option<usize>) -> bool {
    match r {
        Some(i) => ip.len() > 0 && first_at_address(users, ip, i as int),
        None => ip.len() == 0 || forall|i: int| 0 <= i < users.len() ==> !users[i].addresses.contains(ip),
    }
}

/// An empty session address resolves to no profile, whatever the registry
/// holds.
pub proof fn lemma_empty_address_unresolved(users: Seq<UserView>, r: Option<usize>)
    requires
        resolves_to(users, Seq::empty(), r),
    ensures
        r is None,
{
}

/// `i` is the first profile with exactly this name and email.
pub open spec fn first_matching(users: Seq<UserView>, name: Seq<char>, email: Seq<char>, i: int) -> bool {
    &&& 0 <= i < users.len()
    &&& users[i].name == name && users[i].email == email
    &&& forall|j: int| 0 <= j < i ==> !(users[j].name == name && users[j].email == email)
}

/// `r` is the first profile named `name <email>`, or none where there is none.
pub open spec fn matches_to(users: Seq<UserView>, name: Seq<char>, email: Seq<char>, r: Option<usize>) -> bool {
    match r {
        Some(i) => first_matching(users, name, email, i as int),
        None => forall|i: int| 0 <= i < users.len() ==> !(users[i].name == name && users[i].email == email),
    }
}

impl Config {
    /// An empty registry.
    pub fn new() -> (r: Config)
        ensures
            r@ == Seq::<UserView>::empty(),
    {
        let r = Config { users: Vec::new() };
        assert(r@ =~= Seq::<UserView>::empty());
        r
    }
}

/// Whether `addresses` holds `ip`.
pub fn contains_address(addresses: &Vec<String>, ip: &String) -> (r: bool)
    ensures
        r == strings(addresses@).contains(ip@),
{
    let mut i: usize = 0;
    while i < addresses.len()
        invariant
            i <= addresses@.len(),
            forall|j: int| 0 <= j < i ==> addresses@[j]@ != ip@,
        decreases addresses@.len() - i,
    {
        if addresses[i] == *ip {
            assert(strings(addresses@)[i as int] == ip@);
            return true;
        }
        i = i + 1;
    }
    false
}

/// The index of the profile that a session at `ip` resolves to.
pub fn current_user_from_config(config: &Config, ip: &str) -> (r: Option<usize>)
    ensures
        resolves_to(config@, ip@, r),
{
    if ip.is_empty() {
        return None;
    }
    let key = String::from_str(ip);
    let mut i: usize = 0;
    while i < config.users.len()
        invariant
            i <= config.users@.len(),
            ip@.len() > 0,
            key@ == ip@,
            forall|j: int| 0 <= j < i ==> !config@[j].addresses.contains(ip@),
        decreases config.users@.len() - i,
    {
        assert(config@[i as int] == config.users@[i as int]@);
        if contains_address(&config.users[i].ip_addresses, &key) {
            return Some(i);
        }
        i = i + 1;
    }
    None
}

/// The index of the first profile with exactly this name and email.
pub fn matching_user_from_config(name: &str, email: &str, config: &Config) -> (r: Option<usize>)
    ensures
        matches_to(config@, name@, email@, r),
{
    let wanted_name = String::from_str(name);
    let wanted_email = String::from_str(email);
    let mut i: usize = 0;
    while i < config.users.len()
        invariant
            i <= config.users@.len(),
            wanted_name@ == name@,
            wanted_email@ == email@,
            forall|j: int| 0 <= j < i ==> !(config@[j].name == name@ && config@[j].email == email@),
        decreases config.users@.len() - i,
    {
        assert(config@[i as int] == config.users@[i as int]@);
        if config.users[i].name == wanted_name && config.users[i].email == wanted_email {
            return Some(i);
        }
        i = i + 1;
    }
    None
}

/// `u` seen from one more address.
pub open spec fn with_address(u: UserView, ip: Seq<char>) -> UserView {
    UserView { name: u.name, email: u.email, addresses: u.addresses.push(ip) }
}

/// The registry after recording that `name <email>` commits from `ip`: an
/// empty address changes nothing; otherwise the first profile with that name
/// and email gains `ip` unless it lists it already, and where there is no
/// such profile a new one is appended.
pub open spec fn add_spec(users: Seq<UserView>, name: Seq<char>, email: Seq<char>, ip: Seq<char>) -> Seq<UserView> {
    if ip.len() == 0 {
        users
    } else if exists|i: int| first_matching(users, name, email, i) {
        let i = choose|i: int| first_matching(users, name, email, i);
        if users[i].addresses.contains(ip) {
            users
        } else {
            users.update(i, with_address(users[i], ip))
        }
    } else {
        users.push(UserView { name, email, addresses: seq![ip] })
    }
}

/// Records that `name <email>` commits from the session address `ip`;
/// returns whether the registry changed and so needs saving.
pub fn add_user(config: &mut Config, name: &str, email: &str, ip: &str) -> (changed: bool)
    ensures
        final(config)@ == add_spec(old(config)@, name@, email@, ip@),
        changed == (final(config)@ != old(config)@),
        registry_wf(old(config)@) ==> registry_wf(final(config)@),
{
    if ip.is_empty() {
        return false;
    }
    let key = String::from_str(ip);
    match matching_user_from_config(name, email, config) {
        Some(i) => {
            assert(config@[i as int] == config.users@[i as int]@);
            if contains_address(&config.users[i].ip_addresses, &key) {
                return false;
            }
            let ghost before = config@;
            config.users[i].ip_addresses.push(key);
            assert(strings(config.users@[i as int].ip_addresses@) =~= before[i as int].addresses.push(ip@));
            assert(config@ =~= before.update(i as int, with_address(before[i as int], ip@)));
            assert(config@[i as int].addresses.len() != before[i as int].addresses.len());
            proof {
                if registry_wf(before) {
                    assert forall|k: int| 0 <= k < config@.len() implies (#[trigger] config@[k]).addresses.no_duplicates() by {
                        if k == i {
                            assert(before[k].addresses.no_duplicates());
                        }
                    }
                }
            }
            true
        },
        None => {
            let mut addresses: Vec<String> = Vec::new();
            addresses.push(key);
            let u = User { name: String::from_str(name), email: String::from_str(email), ip_addresses: addresses };
            let ghost before = config@;
            config.users.push(u);
            assert(strings(addresses@) =~= seq![ip@]);
            assert(config@ =~= before.push(UserView { name: name@, email: email@, addresses: seq![ip@] }));
            assert(config@.len() != before.len());
            true
        },
    }
}

proof fn lemma_first_matching_exists(users: Seq<UserView>, name: Seq<char>, email: Seq<char>, j: int)
    requires
        0 <= j < users.len(),
        users[j].name == name && users[j].email == email,
    ensures
        exists|i: int| first_matching(users, name, email, i),
    decreases j,
{
    if exists|k: int| 0 <= k < j && users[k].name == name && users[k].email == email {
        let k = choose|k: int| 0 <= k < j && users[k].name == name && users[k].email == email;
        lemma_first_matching_exists(users, name, email, k);
    } else {
        assert(first_matching(users, name, email, j));
    }
}

/// Adding the same profile from the same address a second time changes
/// nothing.
pub proof fn lemma_add_idempotent(users: Seq<UserView>, name: Seq<char>, email: Seq<char>, ip: Seq<char>)
    ensures
        add_spec(add_spec(users, name, email, ip), name, email, ip) == add_spec(users, name, email, ip),
{
    let once = add_spec(users, name, email, ip);
    if ip.len() > 0 {
        if exists|i: int| first_matching(users, name, email, i) {
            let i = choose|i: int| first_matching(users, name, email, i);
            if !users[i].addresses.contains(ip) {
                assert(once[i].addresses.last() == ip);
                assert(once[i].addresses.contains(ip));
                assert(first_matching(once, name, email, i));
            } else {
                assert(first_matching(once, name, email, i));
            }
        } else {
            let n = users.len() as int;
            assert forall|j: int| 0 <= j < n implies !(users[j].name == name && users[j].email == email) by {
                if users[j].name == name && users[j].email == email {
                    lemma_first_matching_exists(users, name, email, j);
                }
            }
            assert(once[n].addresses[0] == ip);
            assert(first_matching(once, name, email, n));
        }
    }
}

/// Whether a removal by the given name and email filters takes `u` out;
/// with neither filter no profile is taken out.
pub open spec fn removed_by(u: UserView, name: Option<Seq<char>>, email: Option<Seq<char>>) -> bool {
    match (name, email) {
        (Some(n), Some(e)) => u.name == n && u.email == e,
        (Some(n), None) => u.name == n,
        (None, Some(e)) => u.email == e,
        (None, None) => false,
    }
}

/// The profiles that a removal by these filters leaves in place.
pub open spec fn kept(name: Option<Seq<char>>, email: Option<Seq<char>>) -> spec_fn(UserView) -> bool {
    |u: UserView| !removed_by(u, name, email)
}

/// The addresses other than `ip`.
pub open spec fn other_than(ip: Seq<char>) -> spec_fn(Seq<char>) -> bool {
    |a: Seq<char>| a != ip
}

/// `u` no longer seen from `ip`.
pub open spec fn without_address(u: UserView, ip: Seq<char>) -> UserView {
    UserView { name: u.name, email: u.email, addresses: u.addresses.filter(other_than(ip)) }
}

/// The registry after a removal: with a name or an email filter, the
/// profiles it matches go, in order; with neither, every profile forgets the
/// session address `ip` and stays.
pub open spec fn remove_spec(
    users: Seq<UserView>,
    name: Option<Seq<char>>,
    email: Option<Seq<char>>,
    ip: Seq<char>,
) -> Seq<UserView> {
    if name is None && email is None {
        users.map_values(|u: UserView| without_address(u, ip))
    } else {
        users.filter(kept(name, email))
    }
}

fn copy_addresses(v: &Vec<String>) -> (r: Vec<String>)
    ensures
        strings(r@) == strings(v@),
{
    let mut r: Vec<String> = Vec::new();
    let mut i: usize = 0;
    while i < v.len()
        invariant
            i <= v@.len(),
            strings(r@) =~= strings(v@).subrange(0, i as int),
        decreases v@.len() - i,
    {
        let ghost before = r@;
        r.push(v[i].clone());
        assert(strings(r@) =~= strings(before).push(v@[i as int]@));
        i = i + 1;
    }
    assert(strings(v@).subrange(0, v@.len() as int) =~= strings(v@));
    r
}

fn copy_user(u: &User) -> (r: User)
    ensures
        r@ == u@,
{
    User { name: u.name.clone(), email: u.email.clone(), ip_addresses: copy_addresses(&u.ip_addresses) }
}

fn drop_address(u: &User, ip: &String) -> (r: User)
    ensures
        r@ == without_address(u@, ip@),
{
    let mut kept_addresses: Vec<String> = Vec::new();
    let mut i: usize = 0;
    while i < u.ip_addresses.len()
        invariant
            i <= u.ip_addresses@.len(),
            strings(kept_addresses@) == strings(u.ip_addresses@).subrange(0, i as int).filter(other_than(ip@)),
        decreases u.ip_addresses@.len() - i,
    {
        proof {
            reveal(Seq::filter);
            let s = strings(u.ip_addresses@).subrange(0, i + 1);
            assert(s.drop_last() =~= strings(u.ip_addresses@).subrange(0, i as int));
        }
        if u.ip_addresses[i] != *ip {
            let ghost before = kept_addresses@;
            kept_addresses.push(u.ip_addresses[i].clone());
            assert(strings(kept_addresses@) =~= strings(before).push(u.ip_addresses@[i as int]@));
        }
        i = i + 1;
    }
    assert(strings(u.ip_addresses@).subrange(0, u.ip_addresses@.len() as int) =~= strings(u.ip_addresses@));
    User { name: u.name.clone(), email: u.email.clone(), ip_addresses: kept_addresses }
}

fn is_removed(u: &User, name: &Option<String>, email: &Option<String>) -> (r: bool)
    ensures
        r == removed_by(
            u@,
            match name { Some(n) => Some(n@), None => None },
            match email { Some(e) => Some(e@), None => None },
        ),
{
    match (name, email) {
        (Some(n), Some(e)) => u.name == *n && u.email == *e,
        (Some(n), None) => u.name == *n,
        (None, Some(e)) => u.email == *e,
        (None, None) => false,
    }
}

fn owned(s: Option<&str>) -> (r: Option<String>)
    ensures
        match r { Some(x) => Some(x@), None => None } == opt_view(s),
{
    match s {
        Some(x) => Some(String::from_str(x)),
        None => None,
    }
}

/// Elements that no two positions of `s` hold in relation `clash` stay so
/// after filtering.
proof fn lemma_filter_keeps_apart<A>(s: Seq<A>, p: spec_fn(A) -> bool, clash: spec_fn(A, A) -> bool)
    requires
        forall|i: int, j: int| 0 <= i < j < s.len() ==> !clash(s[i], s[j]),
    ensures
        forall|i: int, j: int|
            0 <= i < j < s.filter(p).len() ==> !clash(s.filter(p)[i], s.filter(p)[j]),
    decreases s.len(),
{
    reveal(Seq::filter);
    if s.len() > 0 {
        let d = s.drop_last();
        lemma_filter_keeps_apart(d, p, clash);
        let f = s.filter(p);
        let g = d.filter(p);
        if p(s.last()) {
            assert(f == g.push(s.last()));
            assert forall|i: int, j: int| 0 <= i < j < f.len() implies !clash(f[i], f[j]) by {
                if j == f.len() - 1 {
                    assert(f[i] == g[i]);
                    assert(g.contains(f[i]));
                    d.lemma_filter_contains_rev(p, f[i]);
                    let k = choose|k: int| 0 <= k < d.len() && d[k] == f[i];
                    assert(s[k] == f[i]);
                    assert(f[j] == s[s.len() - 1]);
                } else {
                    assert(f[i] == g[i] && f[j] == g[j]);
                }
            }
        } else {
            assert(f == g);
        }
    }
}

proof fn lemma_filter_no_duplicates<A>(s: Seq<A>, p: spec_fn(A) -> bool)
    requires
        s.no_duplicates(),
    ensures
        s.filter(p).no_duplicates(),
{
    let same = |a: A, b: A| a == b;
    lemma_filter_keeps_apart(s, p, same);
    let f = s.filter(p);
    assert forall|i: int, j: int| 0 <= i < f.len() && 0 <= j < f.len() && i != j implies f[i] != f[j] by {
        if i < j {
            assert(!same(f[i], f[j]));
        } else {
            assert(!same(f[j], f[i]));
        }
    }
}

proof fn lemma_remove_keeps_wf(users: Seq<UserView>, name: Option<Seq<char>>, email: Option<Seq<char>>, ip: Seq<char>)
    requires
        registry_wf(users),
    ensures
        registry_wf(remove_spec(users, name, email, ip)),
{
    broadcast use vstd::seq_lib::group_filter_ensures;

    let r = remove_spec(users, name, email, ip);
    if name is None && email is None {
        assert forall|i: int| 0 <= i < r.len() implies (#[trigger] r[i]).addresses.no_duplicates() by {
            assert(users[i].addresses.no_duplicates());
            lemma_filter_no_duplicates(users[i].addresses, other_than(ip));
        }
    } else {
        let p = kept(name, email);
        let same_identity = |a: UserView, b: UserView| a.name == b.name && a.email == b.email;
        lemma_filter_keeps_apart(users, p, same_identity);
        assert forall|i: int| 0 <= i < r.len() implies (#[trigger] r[i]).addresses.no_duplicates() by {
            users.lemma_filter_contains_rev(p, r[i]);
        }
        assert forall|i: int, j: int| 0 <= i < j < r.len() implies !(r[i].name == r[j].name && r[i].email == r[j].email) by {
            assert(!same_identity(r[i], r[j]));
        }
    }
}

/// Removes profiles by name and/or email, or, with neither given, forgets
/// the session address `ip` in every profile.
pub fn remove_user(config: &mut Config, name: Option<&str>, email: Option<&str>, ip: &str)
    ensures
        final(config)@ == remove_spec(old(config)@, opt_view(name), opt_view(email), ip@),
        registry_wf(old(config)@) ==> registry_wf(final(config)@),
{
    let ghost users = config@;
    let wanted_name = owned(name);
    let wanted_email = owned(email);
    let key = String::from_str(ip);
    let by_address = name.is_none() && email.is_none();
    let mut out: Vec<User> = Vec::new();
    let mut i: usize = 0;
    while i < config.users.len()
        invariant
            i <= config.users@.len(),
            users == config@,
            key@ == ip@,
            match wanted_name { Some(x) => Some(x@), None => None } == opt_view(name),
            match wanted_email { Some(x) => Some(x@), None => None } == opt_view(email),
            by_address == (name is None && email is None),
            by_address ==> user_views(out@) =~= users.subrange(0, i as int).map_values(
                |u: UserView| without_address(u, ip@),
            ),
            !by_address ==> user_views(out@) == users.subrange(0, i as int).filter(
                kept(opt_view(name), opt_view(email)),
            ),
        decreases config.users@.len() - i,
    {
        let ghost before = out@;
        assert(users[i as int] == config.users@[i as int]@);
        proof {
            reveal(Seq::filter);
            let s = users.subrange(0, i + 1);
            assert(s.drop_last() =~= users.subrange(0, i as int));
        }
        if by_address {
            out.push(drop_address(&config.users[i], &key));
            assert(user_views(out@) =~= user_views(before).push(without_address(users[i as int], ip@)));
        } else if !is_removed(&config.users[i], &wanted_name, &wanted_email) {
            out.push(copy_user(&config.users[i]));
            assert(user_views(out@) =~= user_views(before).push(users[i as int]));
        }
        i = i + 1;
    }
    assert(users.subrange(0, users.len() as int) =~= users);
    config.users = out;
    proof {
        if registry_wf(users) {
            lemma_remove_keeps_wf(users, opt_view(name), opt_view(email), ip@);
        }
    }
}

/// Removing by name alone takes out exactly the profiles with that name:
/// none of them is left, every other profile stays, and nothing new appears.
pub proof fn lemma_remove_by_name(users: Seq<UserView>, name: Seq<char>, ip: Seq<char>)
    ensures
        forall|k: int| 0 <= k < remove_spec(users, Some(name), None, ip).len()
            ==> (#[trigger] remove_spec(users, Some(name), None, ip)[k]).name != name,
        forall|k: int| 0 <= k < users.len() && (#[trigger] users[k]).name != name
            ==> remove_spec(users, Some(name), None, ip).contains(users[k]),
        forall|u: UserView| #[trigger] remove_spec(users, Some(name), None, ip).contains(u)
            ==> users.contains(u),
{
    broadcast use vstd::seq_lib::group_filter_ensures;

    let p = kept(Some(name), None);
    assert forall|u: UserView| #[trigger] remove_spec(users, Some(name), None, ip).contains(u)
        implies users.contains(u) by {
        users.lemma_filter_contains_rev(p, u);
    }
}

/// Empties the registry.
pub fn clear_users(config: &mut Config)
    ensures
        final(config)@ == Seq::<UserView>::empty(),
{
    config.users = Vec::new();
    assert(config@ =~= Seq::<UserView>::empty());
}

/// The listing line of a profile.
pub open spec fn user_line(u: UserView) -> Seq<char> {
    u.name + " <"@ + u.email + ">"@
}

/// One `name <email>` line per profile, in registry order.
pub fn user_lines(config: &Config) -> (r: Vec<String>)
    ensures
        r@.len() == config@.len(),
        forall|k: int| 0 <= k < r@.len() ==> (#[trigger] r@[k])@ == user_line(config@[k]),
{
    let mut r: Vec<String> = Vec::new();
    let mut i: usize = 0;
    while i < config.users.len()
        invariant
            i <= config.users@.len(),
            r@.len() == i,
            forall|k: int| 0 <= k < i ==> (#[trigger] r@[k])@ == user_line(config@[k]),
        decreases config.users@.len() - i,
    {
        assert(config@[i as int] == config.users@[i as int]@);
        let mut line = config.users[i].name.clone();
        line.append(" <");
        line.append(config.users[i].email.as_str());
        line.append(">");
        r.push(line);
        i = i + 1;
    }
    r
}

} // verus!
