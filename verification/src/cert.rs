use crate::decrypt::{decrypt_text, opened_text};
use crate::error::PayError;
use crate::response::{Certificate, CertificateResponse};
use vstd::prelude::*;
use vstd::string::*;

verus! {

/// One of the gateway's certificates, opened: the key with which the
/// gateway's signatures are checked, under the serial number that names it.
#[derive(Debug, Clone)]
pub struct PlatformCertificate {
    pub serial_no: String,
    pub effective_time: String,
    pub expire_time: String,
    /// The public key, in PEM.
    pub public_key: String,
}

/// A platform certificate as plain text.
pub struct PlatformCertificateView {
    pub serial_no: Seq<char>,
    pub effective_time: Seq<char>,
    pub expire_time: Seq<char>,
    pub public_key: Seq<char>,
}

impl View for PlatformCertificate {
    type V = PlatformCertificateView;

    open spec fn view(&self) -> PlatformCertificateView {
        PlatformCertificateView {
            serial_no: self.serial_no@,
            effective_time: self.effective_time@,
            expire_time: self.expire_time@,
            public_key: self.public_key@,
        }
    }
}

/// The certificate that a sealed one opens to under `key`, if it opens.
pub open spec fn opened_certificate(key: Seq<char>, sealed: Certificate) -> Option<
    PlatformCertificateView,
> {
    match opened_text(
        key,
        sealed.encrypt_certificate.ciphertext@,
        sealed.encrypt_certificate.nonce@,
        sealed.encrypt_certificate.associated_data@,
    ) {
        Ok(public_key) => Some(
            PlatformCertificateView {
                serial_no: sealed.serial_no@,
                effective_time: sealed.effective_time@,
                expire_time: sealed.expire_time@,
                public_key,
            },
        ),
        Err(_) => None,
    }
}

/// The certificates that a fetched batch opens to under `key`, in the
/// batch's order: all of them, or `None` where one does not open.
pub open spec fn opened_batch(key: Seq<char>, batch: Seq<Certificate>) -> Option<
    Seq<PlatformCertificateView>,
> {
    if forall|i: int|
        0 <= i < batch.len() ==> opened_certificate(key, #[trigger] batch[i]) is Some {
        Some(Seq::new(batch.len(), |i: int| opened_certificate(key, batch[i])->0))
    } else {
        None
    }
}

/// What a fetch of the certificate list gives the cache to hold: the opened
/// batch, or `None` where the fetch failed, brought no list, or brought a
/// certificate that does not open.
pub open spec fn fetched_batch(
    key: Seq<char>,
    fetched: Result<CertificateResponse, PayError>,
) -> Option<Seq<PlatformCertificateView>> {
    match fetched {
        Ok(response) => match response.data {
            Some(batch) => opened_batch(key, batch@),
            None => None,
        },
        Err(_) => None,
    }
}

/// The last certificate of `certs` that carries `serial_no`.
pub open spec fn last_with(certs: Seq<PlatformCertificateView>, serial_no: Seq<char>) -> Option<
    PlatformCertificateView,
>
    decreases certs.len(),
{
    if certs.len() == 0 {
        None
    } else if certs.last().serial_no == serial_no {
        Some(certs.last())
    } else {
        last_with(certs.drop_last(), serial_no)
    }
}

/// The mapping from serial number to certificate that a batch stands for.
/// Where a batch names a serial number twice, the later entry counts.
pub open spec fn certificate_map(certs: Seq<PlatformCertificateView>) -> Map<
    Seq<char>,
    PlatformCertificateView,
> {
    Map::new(
        |serial_no: Seq<char>| last_with(certs, serial_no) is Some,
        |serial_no: Seq<char>| last_with(certs, serial_no)->0,
    )
}

/// The views of a list of certificates.
pub open spec fn views(certs: Seq<PlatformCertificate>) -> Seq<PlatformCertificateView> {
    Seq::new(certs.len(), |i: int| certs[i]@)
}

/// What a lookup that did not fail tells its caller.
#[derive(Debug, Clone)]
pub enum Lookup {
    /// The certificate is held.
    Found(PlatformCertificate),
    /// The serial number is not held and the list has not been fetched for
    /// this lookup yet: fetch it, then look again.
    Refresh,
}

/// A lookup's answer as plain text.
pub enum LookupView {
    Found(PlatformCertificateView),
    Refresh,
}

impl View for Lookup {
    type V = LookupView;

    open spec fn view(&self) -> LookupView {
        match self {
            Lookup::Found(cert) => LookupView::Found(cert@),
            Lookup::Refresh => LookupView::Refresh,
        }
    }
}

/// What the cache holds once the outcome of a fetch was taken in: what the
/// fetch brought, or what was held before where the fetch failed.
pub open spec fn after_refresh(
    held: Map<Seq<char>, PlatformCertificateView>,
    key: Seq<char>,
    fetched: Result<CertificateResponse, PayError>,
) -> Map<Seq<char>, PlatformCertificateView> {
    match fetched_batch(key, fetched) {
        Some(certs) => certificate_map(certs),
        None => held,
    }
}

/// The gateway's certificates, by serial number.
pub struct CertificateCache {
    certs: Vec<PlatformCertificate>,
}

impl View for CertificateCache {
    type V = Map<Seq<char>, PlatformCertificateView>;

    closed spec fn view(&self) -> Map<Seq<char>, PlatformCertificateView> {
        certificate_map(views(self.certs@))
    }
}

/// What a lookup answers, given what the cache holds and whether the list
/// was already fetched for this lookup.
pub open spec fn lookup_step(
    held: Map<Seq<char>, PlatformCertificateView>,
    serial_no: Seq<char>,
    refreshed: bool,
) -> Result<LookupView, PayError> {
    if held.contains_key(serial_no) {
        Ok(LookupView::Found(held[serial_no]))
    } else if refreshed {
        Err(PayError::UnknownCertificate)
    } else {
        Ok(LookupView::Refresh)
    }
}

fn open_certificate(key: &str, sealed: &Certificate) -> (res: Option<PlatformCertificate>)
    ensures
        match opened_certificate(key@, *sealed) {
            Some(cert) => res matches Some(found) && found@ == cert,
            None => res is None,
        },
{
    match decrypt_text(
        key,
        sealed.encrypt_certificate.ciphertext.as_str(),
        sealed.encrypt_certificate.nonce.as_str(),
        sealed.encrypt_certificate.associated_data.as_str(),
    ) {
        Ok(public_key) => Some(
            PlatformCertificate {
                serial_no: sealed.serial_no.clone(),
                effective_time: sealed.effective_time.clone(),
                expire_time: sealed.expire_time.clone(),
                public_key,
            },
        ),
        Err(_) => None,
    }
}

fn open_batch(key: &str, batch: &Vec<Certificate>) -> (res: Option<Vec<PlatformCertificate>>)
    ensures
        match opened_batch(key@, batch@) {
            Some(certs) => res matches Some(found) && views(found@) == certs,
            None => res is None,
        },
{
    let mut certs: Vec<PlatformCertificate> = Vec::new();
    let mut i: usize = 0;
    while i < batch.len()
        invariant
            i <= batch.len(),
            certs.len() == i,
            forall|j: int|
                0 <= j < i ==> opened_certificate(key@, #[trigger] batch@[j]) == Some(certs@[j]@),
        decreases batch.len() - i,
    {
        match open_certificate(key, &batch[i]) {
            Some(cert) => {
                certs.push(cert);
            },
            None => {
                assert(opened_certificate(key@, batch@[i as int]) is None);
                return None;
            },
        }
        i += 1;
    }
    assert(views(certs@) =~= opened_batch(key@, batch@)->0);
    Some(certs)
}

impl CertificateCache {
    /// A cache that holds nothing.
    pub fn new() -> (res: Self)
        ensures
            res@ == Map::<Seq<char>, PlatformCertificateView>::empty(),
    {
        let res = CertificateCache { certs: Vec::new() };
        assert(res@ =~= Map::<Seq<char>, PlatformCertificateView>::empty());
        res
    }

    /// A cache that holds the given certificates.
    pub fn from_certificates(certs: Vec<PlatformCertificate>) -> (res: Self)
        ensures
            res@ == certificate_map(views(certs@)),
    {
        CertificateCache { certs }
    }

    /// The cache that a fetch of the certificate list leads to, built apart
    /// from the one in use so that it can replace it in one step.
    ///
    /// Fails with `PayError::CertificateFetch` where the fetch failed,
    /// brought no list, or brought a certificate that `key` does not open.
    pub fn from_fetch(key: &str, fetched: Result<CertificateResponse, PayError>) -> (res: Result<
        Self,
        PayError,
    >)
        ensures
            match fetched_batch(key@, fetched) {
                Some(certs) => res matches Ok(cache) && cache@ == certificate_map(certs),
                None => res matches Err(e) && e == PayError::CertificateFetch,
            },
    {
        match fetched {
            Ok(response) => match response.data {
                Some(batch) => match open_batch(key, &batch) {
                    Some(certs) => Ok(CertificateCache { certs }),
                    None => Err(PayError::CertificateFetch),
                },
                None => Err(PayError::CertificateFetch),
            },
            Err(_) => Err(PayError::CertificateFetch),
        }
    }

    /// Takes in the outcome of a fetch of the certificate list. A fetch that
    /// succeeded replaces everything the cache held; one that failed leaves
    /// the cache as it was. There is no state in between.
    pub fn refresh(&mut self, key: &str, fetched: Result<CertificateResponse, PayError>) -> (res:
        Result<(), PayError>)
        ensures
            final(self)@ == after_refresh(old(self)@, key@, fetched),
            res == if fetched_batch(key@, fetched) is Some {
                Ok::<(), PayError>(())
            } else {
                Err(PayError::CertificateFetch)
            },
    {
        match CertificateCache::from_fetch(key, fetched) {
            Ok(cache) => {
                *self = cache;
                Ok(())
            },
            Err(e) => Err(e),
        }
    }

    /// The certificate with this serial number, if the cache holds it.
    pub fn get(&self, serial_no: &str) -> (res: Option<&PlatformCertificate>)
        ensures
            match res {
                Some(cert) => self@.contains_key(serial_no@) && self@[serial_no@] == cert@
                    && cert.serial_no@ == serial_no@,
                None => !self@.contains_key(serial_no@),
            },
    {
        let wanted = serial_no.to_owned();
        let ghost all = views(self.certs@);
        let mut i: usize = self.certs.len();
        assert(all.take(i as int) =~= all);
        while i > 0
            invariant
                i <= self.certs.len(),
                all == views(self.certs@),
                wanted@ == serial_no@,
                last_with(all, serial_no@) == last_with(all.take(i as int), serial_no@),
            decreases i,
        {
            i -= 1;
            proof {
                assert(all.take(i + 1).last() == self.certs@[i as int]@);
                assert(all.take(i + 1).drop_last() =~= all.take(i as int));
            }
            if self.certs[i].serial_no == wanted {
                return Some(&self.certs[i]);
            }
        }
        None
    }

    /// One step of finding the certificate for a serial number. A serial
    /// number that is not held asks for one fetch of the list, and for no
    /// second one: `refreshed` says whether that fetch was already made, and
    /// the lookup then fails with `PayError::UnknownCertificate`.
    pub fn lookup(&self, serial_no: &str, refreshed: bool) -> (res: Result<Lookup, PayError>)
        ensures
            match lookup_step(self@, serial_no@, refreshed) {
                Ok(step) => res matches Ok(found) && found@ == step,
                Err(error) => res matches Err(e) && e == error,
            },
    {
        match self.get(serial_no) {
            Some(cert) => {
                let found = PlatformCertificate {
                    serial_no: cert.serial_no.clone(),
                    effective_time: cert.effective_time.clone(),
                    expire_time: cert.expire_time.clone(),
                    public_key: cert.public_key.clone(),
                };
                Ok(Lookup::Found(found))
            },
            None => if refreshed {
                Err(PayError::UnknownCertificate)
            } else {
                Ok(Lookup::Refresh)
            },
        }
    }
}

/// The certificate that is found for a serial number carries that serial
/// number: a signature is never checked against another certificate than
/// the one that was asked for.
pub proof fn lemma_found_certificate_is_the_named_one(
    certs: Seq<PlatformCertificateView>,
    serial_no: Seq<char>,
)
    ensures
        last_with(certs, serial_no) matches Some(cert) ==> cert.serial_no == serial_no
            && certs.contains(cert),
        certificate_map(certs).contains_key(serial_no) ==> certificate_map(
            certs,
        )[serial_no].serial_no == serial_no,
    decreases certs.len(),
{
    if certs.len() > 0 {
        if certs.last().serial_no == serial_no {
            assert(certs[certs.len() - 1] == certs.last());
        } else {
            lemma_found_certificate_is_the_named_one(certs.drop_last(), serial_no);
            if last_with(certs.drop_last(), serial_no) is Some {
                let cert = last_with(certs.drop_last(), serial_no)->0;
                let i = choose|i: int|
                    0 <= i < certs.drop_last().len() && certs.drop_last()[i] == cert;
                assert(certs[i] == cert);
            }
        }
    }
}

/// A refresh leaves the cache with the mapping it had, whole, or with the
/// mapping that the fetched batch stands for, whole: what a reader finds is
/// never part of the one and part of the other.
pub proof fn lemma_refresh_is_all_or_nothing(
    held: Map<Seq<char>, PlatformCertificateView>,
    key: Seq<char>,
    fetched: Result<CertificateResponse, PayError>,
)
    ensures
        after_refresh(held, key, fetched) == held || (fetched_batch(key, fetched) matches Some(
            certs,
        ) && after_refresh(held, key, fetched) == certificate_map(certs)),
{
}

/// A lookup asks for a fetch only while none was made for it, and only for
/// a serial number that is not held. So a lookup that misses leads to
/// exactly one fetch; whatever that fetch brings, the lookup then ends:
/// with the certificate, or with `PayError::UnknownCertificate`.
pub proof fn lemma_one_refresh_per_lookup(
    before: Map<Seq<char>, PlatformCertificateView>,
    after: Map<Seq<char>, PlatformCertificateView>,
    serial_no: Seq<char>,
)
    ensures
        lookup_step(before, serial_no, false) == Ok::<LookupView, PayError>(LookupView::Refresh)
            <==> !before.contains_key(serial_no),
        lookup_step(after, serial_no, true) != Ok::<LookupView, PayError>(LookupView::Refresh),
        lookup_step(after, serial_no, true) == Err::<LookupView, PayError>(
            PayError::UnknownCertificate,
        ) <==> !after.contains_key(serial_no),
{
}

} // verus!
