//! Lists of PEM items: certificates and private keys.

use vstd::prelude::*;

use crate::outside::{
    pem_certs, pem_ec_keys, pem_pkcs8_keys, pem_rsa_keys, read_pem_certs, read_pem_ec_keys,
    read_pem_pkcs8_keys, read_pem_rsa_keys, DASH,
};
use crate::views::{result_view, result_views, views};

verus! {

/// All values of a list, in order, or the first error in it.
pub open spec fn collected<T>(items: Seq<Result<T, Seq<char>>>) -> Result<Seq<T>, Seq<char>>
    decreases items.len(),
{
    if items.len() == 0 {
        Ok(Seq::empty())
    } else {
        match collected(items.drop_last()) {
            Err(e) => Err(e),
            Ok(values) => match items.last() {
                Ok(value) => Ok(values.push(value)),
                Err(e) => Err(e),
            },
        }
    }
}

/// Collecting gives the values exactly where no item is an error, and else the error at
/// the first place that holds one.
pub proof fn collected_gives_all_or_first_error<T>(items: Seq<Result<T, Seq<char>>>)
    ensures
        match collected(items) {
            Ok(values) => {
                &&& values.len() == items.len()
                &&& forall|i: int|
                    0 <= i < items.len() ==> #[trigger] items[i] == Ok::<T, Seq<char>>(values[i])
            },
            Err(e) => exists|i: int|
                {
                    &&& 0 <= i < items.len()
                    &&& #[trigger] items[i] == Err::<T, Seq<char>>(e)
                    &&& forall|j: int| 0 <= j < i ==> #[trigger] items[j] is Ok
                },
        },
    decreases items.len(),
{
    if items.len() > 0 {
        let front = items.drop_last();
        collected_gives_all_or_first_error(front);
        match collected(front) {
            Ok(values) => {
                assert forall|j: int| 0 <= j < front.len() implies #[trigger] items[j] == Ok::<
                    T,
                    Seq<char>,
                >(values[j]) by {
                    assert(front[j] == items[j]);
                }
                match items.last() {
                    Ok(value) => {
                        let all = values.push(value);
                        assert forall|j: int| 0 <= j < items.len() implies #[trigger] items[j]
                            == Ok::<T, Seq<char>>(all[j]) by {}
                    },
                    Err(e) => {
                        assert(items[items.len() - 1] == Err::<T, Seq<char>>(e));
                    },
                }
            },
            Err(e) => {
                let i = choose|i: int|
                    {
                        &&& 0 <= i < front.len()
                        &&& #[trigger] front[i] == Err::<T, Seq<char>>(e)
                        &&& forall|j: int| 0 <= j < i ==> #[trigger] front[j] is Ok
                    };
                assert(items[i] == front[i]);
                assert forall|j: int| 0 <= j < i implies #[trigger] items[j] is Ok by {
                    assert(front[j] == items[j]);
                }
            },
        }
    }
}

/// Takes all values out of a list, or the first error in it.
pub fn collect_items<T: View>(items: Vec<Result<T, String>>) -> (r: Result<Vec<T>, String>)
    ensures
        match r {
            Ok(values) => collected(result_views(items@)) == Ok::<Seq<T::V>, Seq<char>>(
                views(values@),
            ),
            Err(e) => collected(result_views(items@)) == Err::<Seq<T::V>, Seq<char>>(e@),
        },
{
    let ghost all = result_views(items@);
    let ghost given = items@;
    let mut values: Vec<T> = Vec::new();
    assert(views(values@) =~= Seq::<T::V>::empty());
    assert(all.take(0) =~= Seq::empty());
    for item in it: items
        invariant
            all == result_views(given),
            it.seq() == given,
            collected(all.take(it.index() as int)) == Ok::<Seq<T::V>, Seq<char>>(views(values@)),
    {
        let ghost i = it.index() as int;
        proof {
            assert(item == given[i]);
            assert(all.take(i + 1).drop_last() =~= all.take(i));
            assert(all.take(i + 1).last() == result_view(item));
        }
        match item {
            Ok(value) => {
                let ghost front = values@;
                values.push(value);
                assert(views(values@) =~= views(front).push(value@));
            },
            Err(e) => {
                proof {
                    lemma_collected_error(all, i + 1);
                }
                return Err(e);
            },
        }
    }
    assert(all.take(given.len() as int) =~= all);
    Ok(values)
}

/// An error in the front of a list is the error of the list.
proof fn lemma_collected_error<T>(items: Seq<Result<T, Seq<char>>>, n: int)
    requires
        0 <= n <= items.len(),
        collected(items.take(n)) is Err,
    ensures
        collected(items) == collected(items.take(n)),
    decreases items.len() - n,
{
    if n < items.len() {
        assert(items.take(n + 1).drop_last() =~= items.take(n));
        lemma_collected_error(items, n + 1);
    } else {
        assert(items.take(n) =~= items);
    }
}

/// The values of two lists behind one another are those of the first and behind them those
/// of the second.
pub proof fn joined_lists_give_joined_values<T>(
    a: Seq<Result<T, Seq<char>>>,
    b: Seq<Result<T, Seq<char>>>,
)
    ensures
        collected(a + b) == (match (collected(a), collected(b)) {
            (Ok(first), Ok(second)) => Ok::<Seq<T>, Seq<char>>(first + second),
            (Ok(_), Err(e)) => Err(e),
            (Err(e), _) => Err(e),
        }),
    decreases b.len(),
{
    if b.len() == 0 {
        assert(a + b =~= a);
        if let Ok(first) = collected(a) {
            assert(first + Seq::<T>::empty() =~= first);
        }
    } else {
        assert((a + b).drop_last() =~= a + b.drop_last());
        assert((a + b).last() == b.last());
        joined_lists_give_joined_values(a, b.drop_last());
        if let (Ok(first), Ok(front)) = (collected(a), collected(b.drop_last())) {
            if let Ok(value) = b.last() {
                assert(first + front.push(value) =~= (first + front).push(value));
            }
        }
    }
}

/// The first value of a list, nothing where the list is empty, or the first error in it.
pub open spec fn first_of(items: Seq<Result<Seq<u8>, Seq<char>>>) -> Result<
    Option<Seq<u8>>,
    Seq<char>,
> {
    match collected(items) {
        Err(e) => Err(e),
        Ok(values) => if values.len() == 0 {
            Ok(None)
        } else {
            Ok(Some(values[0]))
        },
    }
}

/// The private key among the keys of three kinds: the first of the first kind that has
/// any. A malformed list counts as far as the kinds before it have no key.
pub open spec fn chosen_key(
    rsa: Seq<Result<Seq<u8>, Seq<char>>>,
    pkcs8: Seq<Result<Seq<u8>, Seq<char>>>,
    ec: Seq<Result<Seq<u8>, Seq<char>>>,
) -> Result<Option<Seq<u8>>, Seq<char>> {
    match first_of(rsa) {
        Ok(None) => match first_of(pkcs8) {
            Ok(None) => first_of(ec),
            found => found,
        },
        found => found,
    }
}

/// The private key in PEM bytes: an RSA key before one in PKCS #8 before an EC key.
pub open spec fn pem_key(pem: Seq<u8>) -> Result<Option<Seq<u8>>, Seq<char>> {
    chosen_key(pem_rsa_keys(pem), pem_pkcs8_keys(pem), pem_ec_keys(pem))
}

/// The contents of a key that was looked for.
pub open spec fn key_view(r: Result<Option<Vec<u8>>, String>) -> Result<
    Option<Seq<u8>>,
    Seq<char>,
> {
    match r {
        Ok(Some(key)) => Ok(Some(key@)),
        Ok(None) => Ok(None),
        Err(e) => Err(e@),
    }
}

fn first_item(items: Vec<Result<Vec<u8>, String>>) -> (r: Result<Option<Vec<u8>>, String>)
    ensures
        key_view(r) == first_of(result_views(items@)),
{
    match collect_items(items) {
        Err(e) => Err(e),
        Ok(values) => {
            let mut keys: Vec<Vec<u8>> = values;
            if keys.len() == 0 {
                Ok(None)
            } else {
                Ok(Some(keys.remove(0)))
            }
        },
    }
}

/// Picks a private key among the keys of three kinds.
pub fn choose_key(
    rsa: Vec<Result<Vec<u8>, String>>,
    pkcs8: Vec<Result<Vec<u8>, String>>,
    ec: Vec<Result<Vec<u8>, String>>,
) -> (r: Result<Option<Vec<u8>>, String>)
    ensures
        key_view(r) == chosen_key(result_views(rsa@), result_views(pkcs8@), result_views(ec@)),
{
    match first_item(rsa) {
        Ok(None) => match first_item(pkcs8) {
            Ok(None) => first_item(ec),
            found => found,
        },
        found => found,
    }
}

/// Finds the private key in PEM bytes. There is none in bytes without a dash.
pub fn private_key(pem: &[u8]) -> (r: Result<Option<Vec<u8>>, String>)
    ensures
        key_view(r) == pem_key(pem@),
        !pem@.contains(DASH) ==> r == Ok::<Option<Vec<u8>>, String>(None),
{
    choose_key(read_pem_rsa_keys(pem), read_pem_pkcs8_keys(pem), read_pem_ec_keys(pem))
}

/// Finds the certificates in PEM bytes: all of them, or the first error. There are none in
/// bytes without a dash.
pub fn certificates(pem: &[u8]) -> (r: Result<Vec<Vec<u8>>, String>)
    ensures
        match r {
            Ok(certs) => collected(pem_certs(pem@, None)) == Ok::<Seq<Seq<u8>>, Seq<char>>(
                views(certs@),
            ),
            Err(e) => collected(pem_certs(pem@, None)) == Err::<Seq<Seq<u8>>, Seq<char>>(e@),
        },
        !pem@.contains(DASH) ==> (r matches Ok(certs) && certs@.len() == 0),
{
    let found: Result<Vec<Vec<u8>>, String> = collect_items(read_pem_certs(pem, None));
    assert(found matches Ok(certs) ==> views(certs@).len() == certs@.len());
    found
}

/// A key of an earlier kind is taken whatever the later kinds hold, and a later kind counts
/// only where the earlier ones are well-formed and empty.
pub proof fn key_kinds_have_an_order(
    rsa: Seq<Result<Seq<u8>, Seq<char>>>,
    pkcs8: Seq<Result<Seq<u8>, Seq<char>>>,
    ec: Seq<Result<Seq<u8>, Seq<char>>>,
)
    ensures
        rsa.len() > 0 ==> chosen_key(rsa, pkcs8, ec) == first_of(rsa),
        rsa.len() == 0 && pkcs8.len() > 0 ==> chosen_key(rsa, pkcs8, ec) == first_of(pkcs8),
        rsa.len() == 0 && pkcs8.len() == 0 ==> chosen_key(rsa, pkcs8, ec) == first_of(ec),
        chosen_key(rsa, pkcs8, ec) == Ok::<Option<Seq<u8>>, Seq<char>>(None) <==> rsa.len() == 0
            && pkcs8.len() == 0 && ec.len() == 0,
{
    collected_gives_all_or_first_error(rsa);
    collected_gives_all_or_first_error(pkcs8);
    collected_gives_all_or_first_error(ec);
}

/// The key of three kinds is the first value of the first kind that has any, where all
/// items of that kind are well-formed.
pub proof fn first_key_of_the_first_kind(
    rsa: Seq<Result<Seq<u8>, Seq<char>>>,
    pkcs8: Seq<Result<Seq<u8>, Seq<char>>>,
    ec: Seq<Result<Seq<u8>, Seq<char>>>,
)
    ensures
        rsa.len() > 0 && (forall|i: int| 0 <= i < rsa.len() ==> #[trigger] rsa[i] is Ok)
            ==> chosen_key(rsa, pkcs8, ec) == Ok::<Option<Seq<u8>>, Seq<char>>(Some(rsa[0]->Ok_0)),
        rsa.len() == 0 && pkcs8.len() > 0 && (forall|i: int| 0 <= i < pkcs8.len() ==> #[trigger] pkcs8[i] is Ok) ==> chosen_key(rsa, pkcs8, ec)
            == Ok::<Option<Seq<u8>>, Seq<char>>(Some(pkcs8[0]->Ok_0)),
        rsa.len() == 0 && pkcs8.len() == 0 && ec.len() > 0 && (forall|i: int| 0 <= i < ec.len() ==> #[trigger] ec[i] is Ok)
            ==> chosen_key(rsa, pkcs8, ec) == Ok::<Option<Seq<u8>>, Seq<char>>(Some(ec[0]->Ok_0)),
        rsa.len() == 0 && pkcs8.len() == 0 && ec.len() == 0 ==> chosen_key(rsa, pkcs8, ec)
            == Ok::<Option<Seq<u8>>, Seq<char>>(None),
{
    collected_gives_all_or_first_error(rsa);
    collected_gives_all_or_first_error(pkcs8);
    collected_gives_all_or_first_error(ec);
}

/// The first malformed item of the first kind that has any item is the error of the key.
pub proof fn first_malformed_key_is_the_error(
    rsa: Seq<Result<Seq<u8>, Seq<char>>>,
    pkcs8: Seq<Result<Seq<u8>, Seq<char>>>,
    ec: Seq<Result<Seq<u8>, Seq<char>>>,
    i: int,
)
    ensures
        0 <= i < rsa.len() && rsa[i] is Err && (forall|j: int|
            0 <= j < i ==> #[trigger] rsa[j] is Ok) ==> chosen_key(rsa, pkcs8, ec) == Err::<Option<Seq<u8>>, Seq<char>>(
            rsa[i]->Err_0,
        ),
        rsa.len() == 0 && 0 <= i < pkcs8.len() && pkcs8[i] is Err && (forall|j: int|
            0 <= j < i ==> #[trigger] pkcs8[j] is Ok) ==> chosen_key(rsa, pkcs8, ec) == Err::<Option<Seq<u8>>, Seq<char>>(
            pkcs8[i]->Err_0,
        ),
        rsa.len() == 0 && pkcs8.len() == 0 && 0 <= i < ec.len() && ec[i] is Err && (forall|j: int|
            0 <= j < i ==> #[trigger] ec[j] is Ok) ==> chosen_key(rsa, pkcs8, ec) == Err::<Option<Seq<u8>>, Seq<char>>(
            ec[i]->Err_0,
        ),
{
    collected_gives_all_or_first_error(rsa);
    collected_gives_all_or_first_error(pkcs8);
    collected_gives_all_or_first_error(ec);
}

/// The key of PEM bytes is the first of its RSA keys, where it has any; else the first of
/// its keys in PKCS #8; else the first of its EC keys; and none where it has none of these.
pub proof fn key_of_a_pem_text(pem: Seq<u8>)
    ensures
        pem_rsa_keys(pem).len() > 0 && (forall|i: int| 0 <= i < pem_rsa_keys(pem).len() ==> #[trigger] pem_rsa_keys(pem)[i] is Ok) ==> pem_key(pem) == Ok::<Option<Seq<u8>>, Seq<char>>(
            Some(pem_rsa_keys(pem)[0]->Ok_0),
        ),
        pem_rsa_keys(pem).len() == 0 && pem_pkcs8_keys(pem).len() > 0 && (forall|i: int| 0 <= i < pem_pkcs8_keys(pem).len() ==> #[trigger] pem_pkcs8_keys(pem)[i] is Ok)
            ==> pem_key(pem) == Ok::<Option<Seq<u8>>, Seq<char>>(Some(pem_pkcs8_keys(pem)[0]->Ok_0)),
        pem_rsa_keys(pem).len() == 0 && pem_pkcs8_keys(pem).len() == 0 && pem_ec_keys(pem).len() > 0
            && (forall|i: int| 0 <= i < pem_ec_keys(pem).len() ==> #[trigger] pem_ec_keys(pem)[i] is Ok) ==> pem_key(pem) == Ok::<Option<Seq<u8>>, Seq<char>>(
            Some(pem_ec_keys(pem)[0]->Ok_0),
        ),
        pem_key(pem) == Ok::<Option<Seq<u8>>, Seq<char>>(None) <==> pem_rsa_keys(pem).len() == 0 && pem_pkcs8_keys(pem).len()
            == 0 && pem_ec_keys(pem).len() == 0,
        pem_key(pem) == chosen_key(pem_rsa_keys(pem), pem_pkcs8_keys(pem), pem_ec_keys(pem)),
{
    first_key_of_the_first_kind(pem_rsa_keys(pem), pem_pkcs8_keys(pem), pem_ec_keys(pem));
    key_kinds_have_an_order(pem_rsa_keys(pem), pem_pkcs8_keys(pem), pem_ec_keys(pem));
}

/// The first value of a list is what stands at its first place, where no item is an error.
pub proof fn first_value_stands_first(items: Seq<Result<Seq<u8>, Seq<char>>>)
    ensures
        items.len() == 0 ==> first_of(items) == Ok::<Option<Seq<u8>>, Seq<char>>(None),
        items.len() > 0 && (forall|i: int| 0 <= i < items.len() ==> #[trigger] items[i] is Ok) ==> first_of(items) == Ok::<Option<Seq<u8>>, Seq<char>>(Some(items[0]->Ok_0)),
        first_of(items) is Err <==> !(forall|i: int| 0 <= i < items.len() ==> #[trigger] items[i] is Ok),
{
    collected_gives_all_or_first_error(items);
}

/// A key that was looked for shows its bytes.
pub proof fn found_key_shows_its_bytes(key: Vec<u8>, error: String)
    ensures
        key_view(Ok(Some(key))) == Ok::<Option<Seq<u8>>, Seq<char>>(Some(key@)),
        key_view(Ok(None)) == Ok::<Option<Seq<u8>>, Seq<char>>(None),
        key_view(Err(error)) == Err::<Option<Seq<u8>>, Seq<char>>(error@),
{
}

} // verus!
