//! Account names.
use vstd::prelude::*;
use vstd::string::*;

verus! {

/// The name of the account of a configuration that names none.
pub const DEFAULT_ACCOUNT_NAME: &'static str = "default";

/// A character that an account name may hold: an ASCII letter or digit, or a
/// hyphen.
pub open spec fn account_char(c: char) -> bool {
    ('a' <= c <= 'z') || ('A' <= c <= 'Z') || ('0' <= c <= '9') || c == '-'
}

/// A text that can be an account name: one to 64 such characters.
pub open spec fn account_name(name: Seq<char>) -> bool {
    &&& 0 < name.len() <= 64
    &&& forall|i: int| 0 <= i < name.len() ==> account_char(#[trigger] name[i])
}

/// Whether a text can be an account name.
pub fn is_account_name(name: &str) -> (r: bool)
    ensures
        r == account_name(name@),
{
    let mut count: usize = 0;
    for c in it: name.chars()
        invariant
            it.seq() == name@,
            count == it.index(),
            count <= 64,
            forall|i: int| 0 <= i < count ==> account_char(#[trigger] name@[i]),
    {
        if count == 64 {
            return false;
        }
        let ok = ('a' <= c && c <= 'z') || ('A' <= c && c <= 'Z') || ('0' <= c && c <= '9') || c
            == '-';
        if !ok {
            assert(!account_char(name@[count as int]));
            return false;
        }
        count = count + 1;
    }
    count > 0
}

/// The name of an account.
#[derive(Debug, PartialEq, Eq, PartialOrd, Ord, Hash)]
pub struct AccountId {
    name: String,
}

impl View for AccountId {
    type V = Seq<char>;

    closed spec fn view(&self) -> Seq<char> {
        self.name@
    }
}

impl AccountId {
    #[verifier::type_invariant]
    spec fn named(self) -> bool {
        account_name(self.name@)
    }

    /// The account name that a text is: `None` where it is none.
    pub fn new(name: &str) -> (r: Option<AccountId>)
        ensures
            r is Some == account_name(name@),
            r matches Some(id) ==> id@ == name@,
    {
        if is_account_name(name) {
            Some(AccountId { name: name.to_owned() })
        } else {
            None
        }
    }

    /// The name.
    pub fn as_str(&self) -> (r: &str)
        ensures
            r@ == self@,
            account_name(r@),
    {
        proof {
            use_type_invariant(self);
        }
        self.name.as_str()
    }

    /// The name, unless it is the one of a configuration that names none.
    pub fn as_optional(&self) -> (r: Option<&str>)
        ensures
            match r {
                Some(name) => name@ == self@ && self@ != DEFAULT_ACCOUNT_NAME@,
                None => self@ == DEFAULT_ACCOUNT_NAME@,
            },
    {
        if crate::text::same_text(self.as_str(), DEFAULT_ACCOUNT_NAME) {
            None
        } else {
            Some(self.as_str())
        }
    }
}

impl Clone for AccountId {
    fn clone(&self) -> (r: AccountId)
        ensures
            r@ == self@,
    {
        proof {
            use_type_invariant(self);
        }
        AccountId { name: self.name.clone() }
    }
}

/// The order of names: that of the first character in which they differ, a name
/// before its continuations.
pub open spec fn before(a: Seq<char>, b: Seq<char>) -> bool
    decreases a.len(),
{
    if b.len() == 0 {
        false
    } else if a.len() == 0 {
        true
    } else if a[0] != b[0] {
        a[0] < b[0]
    } else {
        before(a.skip(1), b.skip(1))
    }
}

/// Whether one name stands before another.
pub fn is_before(a: &str, b: &str) -> (r: bool)
    ensures
        r == before(a@, b@),
{
    let n: usize = a.unicode_len();
    let m: usize = b.unicode_len();
    let mut i: usize = 0;
    assert(a@.skip(0) =~= a@);
    assert(b@.skip(0) =~= b@);
    while i < n && i < m
        invariant
            n == a@.len(),
            m == b@.len(),
            i <= n,
            i <= m,
            before(a@, b@) == before(a@.skip(i as int), b@.skip(i as int)),
        decreases n - i,
    {
        let x = a.get_char(i);
        let y = b.get_char(i);
        if x != y {
            return x < y;
        }
        assert(a@.skip(i as int).skip(1) =~= a@.skip(i + 1));
        assert(b@.skip(i as int).skip(1) =~= b@.skip(i + 1));
        i = i + 1;
    }
    i < m
}

/// Of two names one stands before the other, or they are the same.
pub proof fn law_order_is_total(a: Seq<char>, b: Seq<char>)
    ensures
        a == b || before(a, b) || before(b, a),
        !(before(a, b) && before(b, a)),
        !before(a, a),
    decreases a.len(),
{
    if a.len() > 0 && b.len() > 0 && a[0] == b[0] {
        law_order_is_total(a.skip(1), b.skip(1));
        if a.skip(1) == b.skip(1) {
            assert(a =~= seq![a[0]] + a.skip(1));
            assert(b =~= seq![b[0]] + b.skip(1));
        }
    } else if a.len() == 0 && b.len() == 0 {
        assert(a =~= b);
    }
    if a.len() > 0 {
        law_order_is_total(a.skip(1), a.skip(1));
    }
}

/// What stands before a second name stands before each that the second stands
/// before.
pub proof fn law_order_is_transitive(a: Seq<char>, b: Seq<char>, c: Seq<char>)
    requires
        before(a, b),
        before(b, c),
    ensures
        before(a, c),
    decreases a.len(),
{
    if a.len() > 0 && b.len() > 0 && c.len() > 0 && a[0] == b[0] && b[0] == c[0] {
        law_order_is_transitive(a.skip(1), b.skip(1), c.skip(1));
    }
}

/// An account name may hold the small and capital letters and the digits of ASCII, and
/// the hyphen: nothing beyond ASCII, and none of the signs that part an account from
/// what stands beside it.
pub proof fn law_account_characters(c: char)
    ensures
        account_char(c) <==> {
            ||| 48 <= c as u32 <= 57
            ||| 65 <= c as u32 <= 90
            ||| 97 <= c as u32 <= 122
            ||| c as u32 == 45
        },
        c == '.' || c == '/' || c == '_' || c == ':' || c == ' ' || c == '&' ==> !account_char(c),
{
}

/// An account name grows by one character at a time, up to sixty-four of them, and is
/// never empty.
pub proof fn law_account_name_grows_up_to_its_limit(name: Seq<char>, c: char)
    ensures
        !account_name(Seq::empty()),
        account_name(seq![c]) <==> account_char(c),
        name.len() == 0 || account_name(name) ==> (account_name(name.push(c)) <==> account_char(c)
            && name.len() < 64),
        name.len() > 0 && !account_name(name) ==> !account_name(name.push(c)),
{
    let longer = name.push(c);
    assert(longer[name.len() as int] == c);
    assert(seq![c][0] == c);
    assert forall|i: int| 0 <= i < name.len() implies longer[i] == name[i] by {}
    if account_name(longer) {
        assert forall|i: int| 0 <= i < name.len() implies account_char(#[trigger] name[i]) by {
            assert(account_char(longer[i]));
        }
    }
}

/// A name stands before those that continue it, and the first character in which two
/// names differ decides: the smaller one stands in the earlier name.
pub proof fn law_first_difference_decides(
    common: Seq<char>,
    x: char,
    y: char,
    s: Seq<char>,
    t: Seq<char>,
)
    requires
        x < y,
    ensures
        before(common, common.push(x) + s),
        before(common.push(x) + s, common.push(y) + t),
        !before(common.push(y) + t, common.push(x) + s),
    decreases common.len(),
{
    let a = common.push(x) + s;
    let b = common.push(y) + t;
    if common.len() > 0 {
        let rest = common.skip(1);
        law_first_difference_decides(rest, x, y, s, t);
        assert(a.skip(1) =~= rest.push(x) + s);
        assert(b.skip(1) =~= rest.push(y) + t);
    }
}

} // verus!
