//! What verifying a file's signature found, and the sentence a listener hears about it.

use vstd::prelude::*;

use crate::entities::opt_view;
use crate::text::{concat, copied, ends_with, is_white};

verus! {

/// What this computer said about a file.
#[derive(Debug, PartialEq, Eq)]
pub enum Verdict {
    Trusted { signer: Signer },
    Untrusted { fault: Fault },
    /// The check could not run.
    Unverifiable {
        /// A whole sentence, spoken after the verdict's own.
        why: String,
    },
}

/// Who signed a file this machine trusts.
#[derive(Debug, PartialEq, Eq)]
pub enum Signer {
    Microsoft,
    Apple,
    Other {
        /// The certificate subject, as `CertGetNameStringW` renders it.
        name: String,
    },
}

/// The ways this computer can verify a signature and refuse it; each `signer` is `None`
/// when the certificate named nobody readable.
#[derive(Debug, PartialEq, Eq)]
pub enum Fault {
    /// No embedded signature, and no catalog on this machine claims its hash.
    NotSigned,
    /// Signed with no certificate, as Apple silicon requires of every locally built binary.
    AdHoc,
    Tampered,
    UntrustedRoot { signer: Option<String> },
    Revoked { signer: Option<String> },
    /// Expired when it signed, with no timestamp.
    Expired { signer: Option<String> },
}

impl Clone for Signer {
    fn clone(&self) -> (r: Self)
        ensures
            r == *self,
    {
        match self {
            Signer::Microsoft => Signer::Microsoft,
            Signer::Apple => Signer::Apple,
            Signer::Other { name } => Signer::Other { name: name.clone() },
        }
    }
}

impl Clone for Fault {
    fn clone(&self) -> (r: Self)
        ensures
            r == *self,
    {
        match self {
            Fault::NotSigned => Fault::NotSigned,
            Fault::AdHoc => Fault::AdHoc,
            Fault::Tampered => Fault::Tampered,
            Fault::UntrustedRoot { signer } => Fault::UntrustedRoot { signer: signer.clone() },
            Fault::Revoked { signer } => Fault::Revoked { signer: signer.clone() },
            Fault::Expired { signer } => Fault::Expired { signer: signer.clone() },
        }
    }
}

impl Clone for Verdict {
    fn clone(&self) -> (r: Self)
        ensures
            r == *self,
    {
        match self {
            Verdict::Trusted { signer } => Verdict::Trusted { signer: signer.clone() },
            Verdict::Untrusted { fault } => Verdict::Untrusted { fault: fault.clone() },
            Verdict::Unverifiable { why } => Verdict::Unverifiable { why: why.clone() },
        }
    }
}

pub open spec fn vendor_of(signer: Signer) -> Seq<char> {
    match signer {
        Signer::Microsoft => "Microsoft"@,
        Signer::Apple => "Apple"@,
        Signer::Other { name } => name@,
    }
}

impl Signer {
    pub fn vendor(&self) -> (r: &str)
        ensures
            r@ == vendor_of(*self),
    {
        match self {
            Signer::Microsoft => "Microsoft",
            Signer::Apple => "Apple",
            Signer::Other { name } => name.as_str(),
        }
    }
}

pub open spec fn by_said(signer: Option<Seq<char>>) -> Seq<char> {
    match signer {
        None => "by somebody"@,
        Some(name) => "by "@ + name,
    }
}

pub open spec fn certificate_said(signer: Option<Seq<char>>) -> Seq<char> {
    match signer {
        None => "The certificate this file was signed with"@,
        Some(name) => "The certificate "@ + name + " signed this file with"@,
    }
}

pub open spec fn verdict_settled(verdict: Verdict) -> bool {
    verdict is Trusted
}

pub open spec fn verdict_signer(verdict: Verdict) -> Option<Seq<char>> {
    match verdict {
        Verdict::Trusted { signer } => Some(vendor_of(signer)),
        Verdict::Untrusted { fault } => match fault {
            Fault::UntrustedRoot { signer } => opt_view(signer),
            Fault::Revoked { signer } => opt_view(signer),
            Fault::Expired { signer } => opt_view(signer),
            _ => None,
        },
        Verdict::Unverifiable { .. } => None,
    }
}

pub open spec fn verdict_said(verdict: Verdict) -> Seq<char> {
    match verdict {
        Verdict::Trusted { signer } => match signer {
            Signer::Other { name } => "This computer trusts this file's signature, and it was signed by "@
                + name@ + ". Start it if that is who you expect to have built it."@,
            _ => "This computer trusts this file's signature, and "@ + vendor_of(signer)
                + " signed it. There is nothing to decide before starting it."@,
        },
        Verdict::Untrusted { fault } => match fault {
            Fault::NotSigned => "Nothing has signed this file, so there is no record of who built it or whether it has been changed since. Start it only if you know how it got there."@,
            Fault::AdHoc => "This file signed itself, so it has not been altered since it was built and there is no record of who built it. That is what a program compiled on this computer, or installed by a package manager, normally looks like. Start it only if you know how it got there."@,
            Fault::Tampered => "This file has been changed since it was signed, so it is not the file whoever signed it produced. Do not start it unless you know what changed it."@,
            Fault::UntrustedRoot { signer } => "This file is signed "@ + by_said(opt_view(signer))
                + ", and this computer does not trust whoever issued that signature. Start it only if you know why that certificate is not trusted here."@,
            Fault::Revoked { signer } => certificate_said(opt_view(signer))
                + " has been revoked, which is what happens when a signing key is found to have been stolen or misused. Do not start it."@,
            Fault::Expired { signer } => certificate_said(opt_view(signer))
                + " had already expired, and nothing recorded when the signing happened. Start it only if you know where the file came from."@,
        },
        Verdict::Unverifiable { why } => "Acter could not check who signed this file. "@ + why@
            + " Start it only if you know where it came from."@,
    }
}

/// Every verdict is said as a whole sentence: it begins with a capital letter and ends with a
/// full stop, whatever names and reasons it carries.
pub proof fn lemma_every_verdict_is_said_in_whole_sentences(verdict: Verdict)
    ensures
        verdict_said(verdict).len() > 0,
        'A' <= verdict_said(verdict)[0] <= 'Z',
        verdict_said(verdict).last() == '.',
{
    reveal_strlit(" Start it only if you know where it came from.");
    reveal_strlit(" had already expired, and nothing recorded when the signing happened. Start it only if you know where the file came from.");
    reveal_strlit(" has been revoked, which is what happens when a signing key is found to have been stolen or misused. Do not start it.");
    reveal_strlit(" signed it. There is nothing to decide before starting it.");
    reveal_strlit(", and this computer does not trust whoever issued that signature. Start it only if you know why that certificate is not trusted here.");
    reveal_strlit(". Start it if that is who you expect to have built it.");
    reveal_strlit("Acter could not check who signed this file. ");
    reveal_strlit("Nothing has signed this file, so there is no record of who built it or whether it has been changed since. Start it only if you know how it got there.");
    reveal_strlit("This computer trusts this file's signature, and ");
    reveal_strlit("This computer trusts this file's signature, and it was signed by ");
    reveal_strlit("This file has been changed since it was signed, so it is not the file whoever signed it produced. Do not start it unless you know what changed it.");
    reveal_strlit("This file is signed ");
    reveal_strlit("This file signed itself, so it has not been altered since it was built and there is no record of who built it. That is what a program compiled on this computer, or installed by a package manager, normally looks like. Start it only if you know how it got there.");
    reveal_strlit("The certificate this file was signed with");
    reveal_strlit("The certificate ");
}

/// Whether `part` stands somewhere in `s`.
pub open spec fn contains_text(s: Seq<char>, part: Seq<char>) -> bool {
    exists|i: int| 0 <= i && i + part.len() <= s.len() && #[trigger] s.subrange(i, i + part.len()) == part
}

/// Whether a sentence tells the listener what to do next: to start it, not to start it, or
/// that there is nothing to decide.
pub open spec fn says_what_to_do(s: Seq<char>) -> bool {
    contains_text(s, "Start it"@) || contains_text(s, "Do not start it"@) || contains_text(s, "nothing to decide"@)
}

proof fn lemma_contains_in_tail(a: Seq<char>, b: Seq<char>, part: Seq<char>, i: int)
    requires
        0 <= i,
        i + part.len() <= b.len(),
        b.subrange(i, i + part.len()) == part,
    ensures
        contains_text(a + b, part),
{
    assert((a + b).subrange(a.len() + i, a.len() + i + part.len()) =~= b.subrange(i, i + part.len()));
}

/// Every verdict ends by saying what to do about the file: start it, do not start it, or
/// that there is nothing to decide.
pub proof fn lemma_every_verdict_says_what_to_do(verdict: Verdict)
    ensures
        says_what_to_do(verdict_said(verdict)),
{
    reveal_strlit("Start it");
    reveal_strlit("Do not start it");
    reveal_strlit("nothing to decide");
    let empty = Seq::<char>::empty();
    match verdict {
        Verdict::Trusted { signer } => match signer {
            Signer::Other { name } => {
            reveal_strlit(". Start it if that is who you expect to have built it.");
            assert(". Start it if that is who you expect to have built it."@.subrange(2, 10) =~= "Start it"@);
            lemma_contains_in_tail("This computer trusts this file's signature, and it was signed by "@ + name@, ". Start it if that is who you expect to have built it."@, "Start it"@, 2);
            },
            _ => {
            reveal_strlit(" signed it. There is nothing to decide before starting it.");
            assert(" signed it. There is nothing to decide before starting it."@.subrange(21, 38) =~= "nothing to decide"@);
            lemma_contains_in_tail("This computer trusts this file's signature, and "@ + vendor_of(signer), " signed it. There is nothing to decide before starting it."@, "nothing to decide"@, 21);
            },
        },
        Verdict::Untrusted { fault } => match fault {
            Fault::NotSigned => {
            reveal_strlit("Nothing has signed this file, so there is no record of who built it or whether it has been changed since. Start it only if you know how it got there.");
            assert("Nothing has signed this file, so there is no record of who built it or whether it has been changed since. Start it only if you know how it got there."@.subrange(106, 114) =~= "Start it"@);
            lemma_contains_in_tail(empty, "Nothing has signed this file, so there is no record of who built it or whether it has been changed since. Start it only if you know how it got there."@, "Start it"@, 106);
                assert(empty + "Nothing has signed this file, so there is no record of who built it or whether it has been changed since. Start it only if you know how it got there."@ =~= "Nothing has signed this file, so there is no record of who built it or whether it has been changed since. Start it only if you know how it got there."@);
            },
            Fault::AdHoc => {
            reveal_strlit("This file signed itself, so it has not been altered since it was built and there is no record of who built it. That is what a program compiled on this computer, or installed by a package manager, normally looks like. Start it only if you know how it got there.");
            assert("This file signed itself, so it has not been altered since it was built and there is no record of who built it. That is what a program compiled on this computer, or installed by a package manager, normally looks like. Start it only if you know how it got there."@.subrange(217, 225) =~= "Start it"@);
            lemma_contains_in_tail(empty, "This file signed itself, so it has not been altered since it was built and there is no record of who built it. That is what a program compiled on this computer, or installed by a package manager, normally looks like. Start it only if you know how it got there."@, "Start it"@, 217);
                assert(empty + "This file signed itself, so it has not been altered since it was built and there is no record of who built it. That is what a program compiled on this computer, or installed by a package manager, normally looks like. Start it only if you know how it got there."@ =~= "This file signed itself, so it has not been altered since it was built and there is no record of who built it. That is what a program compiled on this computer, or installed by a package manager, normally looks like. Start it only if you know how it got there."@);
            },
            Fault::Tampered => {
            reveal_strlit("This file has been changed since it was signed, so it is not the file whoever signed it produced. Do not start it unless you know what changed it.");
            assert("This file has been changed since it was signed, so it is not the file whoever signed it produced. Do not start it unless you know what changed it."@.subrange(98, 113) =~= "Do not start it"@);
            lemma_contains_in_tail(empty, "This file has been changed since it was signed, so it is not the file whoever signed it produced. Do not start it unless you know what changed it."@, "Do not start it"@, 98);
                assert(empty + "This file has been changed since it was signed, so it is not the file whoever signed it produced. Do not start it unless you know what changed it."@ =~= "This file has been changed since it was signed, so it is not the file whoever signed it produced. Do not start it unless you know what changed it."@);
            },
            Fault::UntrustedRoot { signer } => {
            reveal_strlit(", and this computer does not trust whoever issued that signature. Start it only if you know why that certificate is not trusted here.");
            assert(", and this computer does not trust whoever issued that signature. Start it only if you know why that certificate is not trusted here."@.subrange(66, 74) =~= "Start it"@);
            lemma_contains_in_tail("This file is signed "@ + by_said(opt_view(signer)), ", and this computer does not trust whoever issued that signature. Start it only if you know why that certificate is not trusted here."@, "Start it"@, 66);
            },
            Fault::Revoked { signer } => {
            reveal_strlit(" has been revoked, which is what happens when a signing key is found to have been stolen or misused. Do not start it.");
            assert(" has been revoked, which is what happens when a signing key is found to have been stolen or misused. Do not start it."@.subrange(101, 116) =~= "Do not start it"@);
            lemma_contains_in_tail(certificate_said(opt_view(signer)), " has been revoked, which is what happens when a signing key is found to have been stolen or misused. Do not start it."@, "Do not start it"@, 101);
            },
            Fault::Expired { signer } => {
            reveal_strlit(" had already expired, and nothing recorded when the signing happened. Start it only if you know where the file came from.");
            assert(" had already expired, and nothing recorded when the signing happened. Start it only if you know where the file came from."@.subrange(70, 78) =~= "Start it"@);
            lemma_contains_in_tail(certificate_said(opt_view(signer)), " had already expired, and nothing recorded when the signing happened. Start it only if you know where the file came from."@, "Start it"@, 70);
            },
        },
        Verdict::Unverifiable { why } => {
            reveal_strlit(" Start it only if you know where it came from.");
            assert(" Start it only if you know where it came from."@.subrange(1, 9) =~= "Start it"@);
            lemma_contains_in_tail("Acter could not check who signed this file. "@ + why@, " Start it only if you know where it came from."@, "Start it"@, 1);
        },
    }
}

/// How many words `s` holds: runs of characters between whitespace.
pub open spec fn word_count(s: Seq<char>) -> nat
    decreases s.len(),
{
    if s.len() == 0 {
        0
    } else {
        word_count(s.drop_last()) + if !is_white(s.last()) && (s.len() == 1 || is_white(s[s.len() - 2])) {
            1nat
        } else {
            0nat
        }
    }
}

/// Two texts run together hold their words, but for one they may share.
proof fn lemma_word_count_concat(a: Seq<char>, b: Seq<char>)
    ensures
        word_count(a + b) + 1 >= word_count(a) + word_count(b),
    decreases b.len(),
{
    if b.len() == 0 {
        assert(a + b =~= a);
    } else {
        lemma_word_count_concat(a, b.drop_last());
        assert((a + b).drop_last() =~= a + b.drop_last());
        if b.len() >= 2 {
            assert((a + b)[(a + b).len() - 2] == b[b.len() - 2]);
        }
    }
}

/// Two texts run together hold all their words when the first ends in whitespace.
proof fn lemma_word_count_concat_at_space(a: Seq<char>, b: Seq<char>)
    requires
        a.len() > 0,
        is_white(a.last()),
    ensures
        word_count(a + b) >= word_count(a) + word_count(b),
    decreases b.len(),
{
    if b.len() == 0 {
        assert(a + b =~= a);
    } else {
        lemma_word_count_concat_at_space(a, b.drop_last());
        assert((a + b).drop_last() =~= a + b.drop_last());
        if b.len() >= 2 {
            assert((a + b)[(a + b).len() - 2] == b[b.len() - 2]);
        } else {
            assert((a + b)[(a + b).len() - 2] == a.last());
        }
    }
}

/// How many words one fixed piece of a verdict's sentence holds.
#[verifier::rlimit(40)]
proof fn lemma_words_of_0()
    ensures
        word_count("This computer trusts "@) >= 3,
{
    reveal_strlit("This computer trusts ");
    reveal_with_fuel(word_count, 26);
}

/// How many words one fixed piece of a verdict's sentence holds.
#[verifier::rlimit(40)]
proof fn lemma_words_of_1()
    ensures
        word_count("this file's signature, "@) >= 3,
{
    reveal_strlit("this file's signature, ");
    reveal_with_fuel(word_count, 26);
}

/// How many words one fixed piece of a verdict's sentence holds.
#[verifier::rlimit(40)]
proof fn lemma_words_of_2()
    ensures
        word_count("and it was signed by "@) >= 5,
{
    reveal_strlit("and it was signed by ");
    reveal_with_fuel(word_count, 26);
}

/// How many words one fixed piece of a verdict's sentence holds.
#[verifier::rlimit(40)]
proof fn lemma_words_of_3()
    ensures
        word_count(". Start it if that is "@) >= 6,
{
    reveal_strlit(". Start it if that is ");
    reveal_with_fuel(word_count, 26);
}

/// How many words one fixed piece of a verdict's sentence holds.
#[verifier::rlimit(40)]
proof fn lemma_words_of_4()
    ensures
        word_count("who you expect to have "@) >= 5,
{
    reveal_strlit("who you expect to have ");
    reveal_with_fuel(word_count, 26);
}

/// How many words one fixed piece of a verdict's sentence holds.
#[verifier::rlimit(40)]
proof fn lemma_words_of_5()
    ensures
        word_count("built it."@) >= 2,
{
    reveal_strlit("built it.");
    reveal_with_fuel(word_count, 26);
}

/// How many words one fixed piece of a verdict's sentence holds.
#[verifier::rlimit(40)]
proof fn lemma_words_of_6()
    ensures
        word_count("This computer trusts "@) >= 3,
{
    reveal_strlit("This computer trusts ");
    reveal_with_fuel(word_count, 26);
}

/// How many words one fixed piece of a verdict's sentence holds.
#[verifier::rlimit(40)]
proof fn lemma_words_of_7()
    ensures
        word_count("this file's signature, "@) >= 3,
{
    reveal_strlit("this file's signature, ");
    reveal_with_fuel(word_count, 26);
}

/// How many words one fixed piece of a verdict's sentence holds.
#[verifier::rlimit(40)]
proof fn lemma_words_of_8()
    ensures
        word_count("and "@) >= 1,
{
    reveal_strlit("and ");
    reveal_with_fuel(word_count, 26);
}

/// How many words one fixed piece of a verdict's sentence holds.
#[verifier::rlimit(40)]
proof fn lemma_words_of_9()
    ensures
        word_count(" signed it. There is "@) >= 4,
{
    reveal_strlit(" signed it. There is ");
    reveal_with_fuel(word_count, 26);
}

/// How many words one fixed piece of a verdict's sentence holds.
#[verifier::rlimit(40)]
proof fn lemma_words_of_10()
    ensures
        word_count("nothing to decide "@) >= 3,
{
    reveal_strlit("nothing to decide ");
    reveal_with_fuel(word_count, 26);
}

/// How many words one fixed piece of a verdict's sentence holds.
#[verifier::rlimit(40)]
proof fn lemma_words_of_11()
    ensures
        word_count("before starting it."@) >= 3,
{
    reveal_strlit("before starting it.");
    reveal_with_fuel(word_count, 26);
}

/// How many words one fixed piece of a verdict's sentence holds.
#[verifier::rlimit(40)]
proof fn lemma_words_of_12()
    ensures
        word_count("Nothing has signed this "@) >= 4,
{
    reveal_strlit("Nothing has signed this ");
    reveal_with_fuel(word_count, 26);
}

/// How many words one fixed piece of a verdict's sentence holds.
#[verifier::rlimit(40)]
proof fn lemma_words_of_13()
    ensures
        word_count("file, so there is no "@) >= 5,
{
    reveal_strlit("file, so there is no ");
    reveal_with_fuel(word_count, 26);
}

/// How many words one fixed piece of a verdict's sentence holds.
#[verifier::rlimit(40)]
proof fn lemma_words_of_14()
    ensures
        word_count("record of who built it "@) >= 5,
{
    reveal_strlit("record of who built it ");
    reveal_with_fuel(word_count, 26);
}

/// How many words one fixed piece of a verdict's sentence holds.
#[verifier::rlimit(40)]
proof fn lemma_words_of_15()
    ensures
        word_count("or whether it has been "@) >= 5,
{
    reveal_strlit("or whether it has been ");
    reveal_with_fuel(word_count, 26);
}

/// How many words one fixed piece of a verdict's sentence holds.
#[verifier::rlimit(40)]
proof fn lemma_words_of_16()
    ensures
        word_count("changed since. Start it "@) >= 4,
{
    reveal_strlit("changed since. Start it ");
    reveal_with_fuel(word_count, 26);
}

/// How many words one fixed piece of a verdict's sentence holds.
#[verifier::rlimit(40)]
proof fn lemma_words_of_17()
    ensures
        word_count("only if you know how it "@) >= 6,
{
    reveal_strlit("only if you know how it ");
    reveal_with_fuel(word_count, 26);
}

/// How many words one fixed piece of a verdict's sentence holds.
#[verifier::rlimit(40)]
proof fn lemma_words_of_18()
    ensures
        word_count("got there."@) >= 2,
{
    reveal_strlit("got there.");
    reveal_with_fuel(word_count, 26);
}

/// How many words one fixed piece of a verdict's sentence holds.
#[verifier::rlimit(40)]
proof fn lemma_words_of_19()
    ensures
        word_count("This file signed "@) >= 3,
{
    reveal_strlit("This file signed ");
    reveal_with_fuel(word_count, 26);
}

/// How many words one fixed piece of a verdict's sentence holds.
#[verifier::rlimit(40)]
proof fn lemma_words_of_20()
    ensures
        word_count("itself, so it has not "@) >= 5,
{
    reveal_strlit("itself, so it has not ");
    reveal_with_fuel(word_count, 26);
}

/// How many words one fixed piece of a verdict's sentence holds.
#[verifier::rlimit(40)]
proof fn lemma_words_of_21()
    ensures
        word_count("been altered since it "@) >= 4,
{
    reveal_strlit("been altered since it ");
    reveal_with_fuel(word_count, 26);
}

/// How many words one fixed piece of a verdict's sentence holds.
#[verifier::rlimit(40)]
proof fn lemma_words_of_22()
    ensures
        word_count("was built and there is "@) >= 5,
{
    reveal_strlit("was built and there is ");
    reveal_with_fuel(word_count, 26);
}

/// How many words one fixed piece of a verdict's sentence holds.
#[verifier::rlimit(40)]
proof fn lemma_words_of_23()
    ensures
        word_count("no record of who built "@) >= 5,
{
    reveal_strlit("no record of who built ");
    reveal_with_fuel(word_count, 26);
}

/// How many words one fixed piece of a verdict's sentence holds.
#[verifier::rlimit(40)]
proof fn lemma_words_of_24()
    ensures
        word_count("it. That is what a "@) >= 5,
{
    reveal_strlit("it. That is what a ");
    reveal_with_fuel(word_count, 26);
}

/// How many words one fixed piece of a verdict's sentence holds.
#[verifier::rlimit(40)]
proof fn lemma_words_of_25()
    ensures
        word_count("program compiled on "@) >= 3,
{
    reveal_strlit("program compiled on ");
    reveal_with_fuel(word_count, 26);
}

/// How many words one fixed piece of a verdict's sentence holds.
#[verifier::rlimit(40)]
proof fn lemma_words_of_26()
    ensures
        word_count("this computer, or "@) >= 3,
{
    reveal_strlit("this computer, or ");
    reveal_with_fuel(word_count, 26);
}

/// How many words one fixed piece of a verdict's sentence holds.
#[verifier::rlimit(40)]
proof fn lemma_words_of_27()
    ensures
        word_count("installed by a package "@) >= 4,
{
    reveal_strlit("installed by a package ");
    reveal_with_fuel(word_count, 26);
}

/// How many words one fixed piece of a verdict's sentence holds.
#[verifier::rlimit(40)]
proof fn lemma_words_of_28()
    ensures
        word_count("manager, normally looks "@) >= 3,
{
    reveal_strlit("manager, normally looks ");
    reveal_with_fuel(word_count, 26);
}

/// How many words one fixed piece of a verdict's sentence holds.
#[verifier::rlimit(40)]
proof fn lemma_words_of_29()
    ensures
        word_count("like. Start it only if "@) >= 5,
{
    reveal_strlit("like. Start it only if ");
    reveal_with_fuel(word_count, 26);
}

/// How many words one fixed piece of a verdict's sentence holds.
#[verifier::rlimit(40)]
proof fn lemma_words_of_30()
    ensures
        word_count("you know how it got "@) >= 5,
{
    reveal_strlit("you know how it got ");
    reveal_with_fuel(word_count, 26);
}

/// How many words one fixed piece of a verdict's sentence holds.
#[verifier::rlimit(40)]
proof fn lemma_words_of_31()
    ensures
        word_count("there."@) >= 1,
{
    reveal_strlit("there.");
    reveal_with_fuel(word_count, 26);
}

/// How many words one fixed piece of a verdict's sentence holds.
#[verifier::rlimit(40)]
proof fn lemma_words_of_32()
    ensures
        word_count("This file has been "@) >= 4,
{
    reveal_strlit("This file has been ");
    reveal_with_fuel(word_count, 26);
}

/// How many words one fixed piece of a verdict's sentence holds.
#[verifier::rlimit(40)]
proof fn lemma_words_of_33()
    ensures
        word_count("changed since it was "@) >= 4,
{
    reveal_strlit("changed since it was ");
    reveal_with_fuel(word_count, 26);
}

/// How many words one fixed piece of a verdict's sentence holds.
#[verifier::rlimit(40)]
proof fn lemma_words_of_34()
    ensures
        word_count("signed, so it is not "@) >= 5,
{
    reveal_strlit("signed, so it is not ");
    reveal_with_fuel(word_count, 26);
}

/// How many words one fixed piece of a verdict's sentence holds.
#[verifier::rlimit(40)]
proof fn lemma_words_of_35()
    ensures
        word_count("the file whoever signed "@) >= 4,
{
    reveal_strlit("the file whoever signed ");
    reveal_with_fuel(word_count, 26);
}

/// How many words one fixed piece of a verdict's sentence holds.
#[verifier::rlimit(40)]
proof fn lemma_words_of_36()
    ensures
        word_count("it produced. Do not "@) >= 4,
{
    reveal_strlit("it produced. Do not ");
    reveal_with_fuel(word_count, 26);
}

/// How many words one fixed piece of a verdict's sentence holds.
#[verifier::rlimit(40)]
proof fn lemma_words_of_37()
    ensures
        word_count("start it unless you "@) >= 4,
{
    reveal_strlit("start it unless you ");
    reveal_with_fuel(word_count, 26);
}

/// How many words one fixed piece of a verdict's sentence holds.
#[verifier::rlimit(40)]
proof fn lemma_words_of_38()
    ensures
        word_count("know what changed it."@) >= 4,
{
    reveal_strlit("know what changed it.");
    reveal_with_fuel(word_count, 26);
}

/// How many words one fixed piece of a verdict's sentence holds.
#[verifier::rlimit(40)]
proof fn lemma_words_of_39()
    ensures
        word_count("This file is signed "@) >= 4,
{
    reveal_strlit("This file is signed ");
    reveal_with_fuel(word_count, 26);
}

/// How many words one fixed piece of a verdict's sentence holds.
#[verifier::rlimit(40)]
proof fn lemma_words_of_40()
    ensures
        word_count(", and this computer "@) >= 4,
{
    reveal_strlit(", and this computer ");
    reveal_with_fuel(word_count, 26);
}

/// How many words one fixed piece of a verdict's sentence holds.
#[verifier::rlimit(40)]
proof fn lemma_words_of_41()
    ensures
        word_count("does not trust whoever "@) >= 4,
{
    reveal_strlit("does not trust whoever ");
    reveal_with_fuel(word_count, 26);
}

/// How many words one fixed piece of a verdict's sentence holds.
#[verifier::rlimit(40)]
proof fn lemma_words_of_42()
    ensures
        word_count("issued that signature. "@) >= 3,
{
    reveal_strlit("issued that signature. ");
    reveal_with_fuel(word_count, 26);
}

/// How many words one fixed piece of a verdict's sentence holds.
#[verifier::rlimit(40)]
proof fn lemma_words_of_43()
    ensures
        word_count("Start it only if you "@) >= 5,
{
    reveal_strlit("Start it only if you ");
    reveal_with_fuel(word_count, 26);
}

/// How many words one fixed piece of a verdict's sentence holds.
#[verifier::rlimit(40)]
proof fn lemma_words_of_44()
    ensures
        word_count("know why that "@) >= 3,
{
    reveal_strlit("know why that ");
    reveal_with_fuel(word_count, 26);
}

/// How many words one fixed piece of a verdict's sentence holds.
#[verifier::rlimit(40)]
proof fn lemma_words_of_45()
    ensures
        word_count("certificate is not "@) >= 3,
{
    reveal_strlit("certificate is not ");
    reveal_with_fuel(word_count, 26);
}

/// How many words one fixed piece of a verdict's sentence holds.
#[verifier::rlimit(40)]
proof fn lemma_words_of_46()
    ensures
        word_count("trusted here."@) >= 2,
{
    reveal_strlit("trusted here.");
    reveal_with_fuel(word_count, 26);
}

/// How many words one fixed piece of a verdict's sentence holds.
#[verifier::rlimit(40)]
proof fn lemma_words_of_47()
    ensures
        word_count(" has been revoked, "@) >= 3,
{
    reveal_strlit(" has been revoked, ");
    reveal_with_fuel(word_count, 26);
}

/// How many words one fixed piece of a verdict's sentence holds.
#[verifier::rlimit(40)]
proof fn lemma_words_of_48()
    ensures
        word_count("which is what happens "@) >= 4,
{
    reveal_strlit("which is what happens ");
    reveal_with_fuel(word_count, 26);
}

/// How many words one fixed piece of a verdict's sentence holds.
#[verifier::rlimit(40)]
proof fn lemma_words_of_49()
    ensures
        word_count("when a signing key is "@) >= 5,
{
    reveal_strlit("when a signing key is ");
    reveal_with_fuel(word_count, 26);
}

/// How many words one fixed piece of a verdict's sentence holds.
#[verifier::rlimit(40)]
proof fn lemma_words_of_50()
    ensures
        word_count("found to have been "@) >= 4,
{
    reveal_strlit("found to have been ");
    reveal_with_fuel(word_count, 26);
}

/// How many words one fixed piece of a verdict's sentence holds.
#[verifier::rlimit(40)]
proof fn lemma_words_of_51()
    ensures
        word_count("stolen or misused. Do "@) >= 4,
{
    reveal_strlit("stolen or misused. Do ");
    reveal_with_fuel(word_count, 26);
}

/// How many words one fixed piece of a verdict's sentence holds.
#[verifier::rlimit(40)]
proof fn lemma_words_of_52()
    ensures
        word_count("not start it."@) >= 3,
{
    reveal_strlit("not start it.");
    reveal_with_fuel(word_count, 26);
}

/// How many words one fixed piece of a verdict's sentence holds.
#[verifier::rlimit(40)]
proof fn lemma_words_of_53()
    ensures
        word_count(" had already expired, "@) >= 3,
{
    reveal_strlit(" had already expired, ");
    reveal_with_fuel(word_count, 26);
}

/// How many words one fixed piece of a verdict's sentence holds.
#[verifier::rlimit(40)]
proof fn lemma_words_of_54()
    ensures
        word_count("and nothing recorded "@) >= 3,
{
    reveal_strlit("and nothing recorded ");
    reveal_with_fuel(word_count, 26);
}

/// How many words one fixed piece of a verdict's sentence holds.
#[verifier::rlimit(40)]
proof fn lemma_words_of_55()
    ensures
        word_count("when the signing "@) >= 3,
{
    reveal_strlit("when the signing ");
    reveal_with_fuel(word_count, 26);
}

/// How many words one fixed piece of a verdict's sentence holds.
#[verifier::rlimit(40)]
proof fn lemma_words_of_56()
    ensures
        word_count("happened. Start it only "@) >= 4,
{
    reveal_strlit("happened. Start it only ");
    reveal_with_fuel(word_count, 26);
}

/// How many words one fixed piece of a verdict's sentence holds.
#[verifier::rlimit(40)]
proof fn lemma_words_of_57()
    ensures
        word_count("if you know where the "@) >= 5,
{
    reveal_strlit("if you know where the ");
    reveal_with_fuel(word_count, 26);
}

/// How many words one fixed piece of a verdict's sentence holds.
#[verifier::rlimit(40)]
proof fn lemma_words_of_58()
    ensures
        word_count("file came from."@) >= 3,
{
    reveal_strlit("file came from.");
    reveal_with_fuel(word_count, 26);
}

/// How many words one fixed piece of a verdict's sentence holds.
#[verifier::rlimit(40)]
proof fn lemma_words_of_59()
    ensures
        word_count("Acter could not check "@) >= 4,
{
    reveal_strlit("Acter could not check ");
    reveal_with_fuel(word_count, 26);
}

/// How many words one fixed piece of a verdict's sentence holds.
#[verifier::rlimit(40)]
proof fn lemma_words_of_60()
    ensures
        word_count("who signed this file. "@) >= 4,
{
    reveal_strlit("who signed this file. ");
    reveal_with_fuel(word_count, 26);
}

/// How many words one fixed piece of a verdict's sentence holds.
#[verifier::rlimit(40)]
proof fn lemma_words_of_61()
    ensures
        word_count(" Start it only if you "@) >= 5,
{
    reveal_strlit(" Start it only if you ");
    reveal_with_fuel(word_count, 26);
}

/// How many words one fixed piece of a verdict's sentence holds.
#[verifier::rlimit(40)]
proof fn lemma_words_of_62()
    ensures
        word_count("know where it came from."@) >= 5,
{
    reveal_strlit("know where it came from.");
    reveal_with_fuel(word_count, 26);
}

/// How many words one kind of verdict is said in, whatever names it carries.
proof fn lemma_verdict_words_0(x: Seq<char>)
    ensures
        word_count("This computer trusts this file's signature, and it was signed by "@ + x + ". Start it if that is who you expect to have built it."@) >= 10,
{
    reveal_strlit(". Start it if that is ");
    reveal_strlit(". Start it if that is who you expect to have built it.");
    reveal_strlit("This computer trusts ");
    reveal_strlit("This computer trusts this file's signature, and it was signed by ");
    reveal_strlit("and it was signed by ");
    reveal_strlit("built it.");
    reveal_strlit("this file's signature, ");
    reveal_strlit("who you expect to have ");
    assert("This computer trusts this file's signature, and it was signed by "@ =~= "This computer trusts "@ + "this file's signature, "@ + "and it was signed by "@);
    assert(". Start it if that is who you expect to have built it."@ =~= ". Start it if that is "@ + "who you expect to have "@ + "built it."@);
    lemma_words_of_0();
    lemma_words_of_1();
    lemma_words_of_2();
    lemma_words_of_3();
    lemma_words_of_4();
    lemma_words_of_5();
    lemma_word_count_concat_at_space("This computer trusts "@, "this file's signature, "@);
    lemma_word_count_concat_at_space(("This computer trusts "@ + "this file's signature, "@), "and it was signed by "@);
    lemma_word_count_concat_at_space((("This computer trusts "@ + "this file's signature, "@) + "and it was signed by "@), x);
    lemma_word_count_concat(((("This computer trusts "@ + "this file's signature, "@) + "and it was signed by "@) + x), ". Start it if that is "@);
    lemma_word_count_concat_at_space((((("This computer trusts "@ + "this file's signature, "@) + "and it was signed by "@) + x) + ". Start it if that is "@), "who you expect to have "@);
    lemma_word_count_concat_at_space(((((("This computer trusts "@ + "this file's signature, "@) + "and it was signed by "@) + x) + ". Start it if that is "@) + "who you expect to have "@), "built it."@);
    assert("This computer trusts this file's signature, and it was signed by "@ + x + ". Start it if that is who you expect to have built it."@ =~= (((((("This computer trusts "@ + "this file's signature, "@) + "and it was signed by "@) + x) + ". Start it if that is "@) + "who you expect to have "@) + "built it."@));
}

/// How many words one kind of verdict is said in, whatever names it carries.
proof fn lemma_verdict_words_1(x: Seq<char>)
    ensures
        word_count("This computer trusts this file's signature, and "@ + x + " signed it. There is nothing to decide before starting it."@) >= 10,
{
    reveal_strlit(" signed it. There is ");
    reveal_strlit(" signed it. There is nothing to decide before starting it.");
    reveal_strlit("This computer trusts ");
    reveal_strlit("This computer trusts this file's signature, and ");
    reveal_strlit("and ");
    reveal_strlit("before starting it.");
    reveal_strlit("nothing to decide ");
    reveal_strlit("this file's signature, ");
    assert("This computer trusts this file's signature, and "@ =~= "This computer trusts "@ + "this file's signature, "@ + "and "@);
    assert(" signed it. There is nothing to decide before starting it."@ =~= " signed it. There is "@ + "nothing to decide "@ + "before starting it."@);
    lemma_words_of_6();
    lemma_words_of_7();
    lemma_words_of_8();
    lemma_words_of_9();
    lemma_words_of_10();
    lemma_words_of_11();
    lemma_word_count_concat_at_space("This computer trusts "@, "this file's signature, "@);
    lemma_word_count_concat_at_space(("This computer trusts "@ + "this file's signature, "@), "and "@);
    lemma_word_count_concat_at_space((("This computer trusts "@ + "this file's signature, "@) + "and "@), x);
    lemma_word_count_concat(((("This computer trusts "@ + "this file's signature, "@) + "and "@) + x), " signed it. There is "@);
    lemma_word_count_concat_at_space((((("This computer trusts "@ + "this file's signature, "@) + "and "@) + x) + " signed it. There is "@), "nothing to decide "@);
    lemma_word_count_concat_at_space(((((("This computer trusts "@ + "this file's signature, "@) + "and "@) + x) + " signed it. There is "@) + "nothing to decide "@), "before starting it."@);
    assert("This computer trusts this file's signature, and "@ + x + " signed it. There is nothing to decide before starting it."@ =~= (((((("This computer trusts "@ + "this file's signature, "@) + "and "@) + x) + " signed it. There is "@) + "nothing to decide "@) + "before starting it."@));
}

/// How many words one kind of verdict is said in, whatever names it carries.
proof fn lemma_verdict_words_2()
    ensures
        word_count("Nothing has signed this file, so there is no record of who built it or whether it has been changed since. Start it only if you know how it got there."@) >= 10,
{
    reveal_strlit("Nothing has signed this ");
    reveal_strlit("Nothing has signed this file, so there is no record of who built it or whether it has been changed since. Start it only if you know how it got there.");
    reveal_strlit("changed since. Start it ");
    reveal_strlit("file, so there is no ");
    reveal_strlit("got there.");
    reveal_strlit("only if you know how it ");
    reveal_strlit("or whether it has been ");
    reveal_strlit("record of who built it ");
    assert("Nothing has signed this file, so there is no record of who built it or whether it has been changed since. Start it only if you know how it got there."@ =~= "Nothing has signed this "@ + "file, so there is no "@ + "record of who built it "@ + "or whether it has been "@ + "changed since. Start it "@ + "only if you know how it "@ + "got there."@);
    lemma_words_of_12();
    lemma_words_of_13();
    lemma_words_of_14();
    lemma_words_of_15();
    lemma_words_of_16();
    lemma_words_of_17();
    lemma_words_of_18();
    lemma_word_count_concat_at_space("Nothing has signed this "@, "file, so there is no "@);
    lemma_word_count_concat_at_space(("Nothing has signed this "@ + "file, so there is no "@), "record of who built it "@);
    lemma_word_count_concat_at_space((("Nothing has signed this "@ + "file, so there is no "@) + "record of who built it "@), "or whether it has been "@);
    lemma_word_count_concat_at_space(((("Nothing has signed this "@ + "file, so there is no "@) + "record of who built it "@) + "or whether it has been "@), "changed since. Start it "@);
    lemma_word_count_concat_at_space((((("Nothing has signed this "@ + "file, so there is no "@) + "record of who built it "@) + "or whether it has been "@) + "changed since. Start it "@), "only if you know how it "@);
    lemma_word_count_concat_at_space(((((("Nothing has signed this "@ + "file, so there is no "@) + "record of who built it "@) + "or whether it has been "@) + "changed since. Start it "@) + "only if you know how it "@), "got there."@);
    assert("Nothing has signed this file, so there is no record of who built it or whether it has been changed since. Start it only if you know how it got there."@ =~= (((((("Nothing has signed this "@ + "file, so there is no "@) + "record of who built it "@) + "or whether it has been "@) + "changed since. Start it "@) + "only if you know how it "@) + "got there."@));
}

/// How many words one kind of verdict is said in, whatever names it carries.
proof fn lemma_verdict_words_3()
    ensures
        word_count("This file signed itself, so it has not been altered since it was built and there is no record of who built it. That is what a program compiled on this computer, or installed by a package manager, normally looks like. Start it only if you know how it got there."@) >= 10,
{
    reveal_strlit("This file signed ");
    reveal_strlit("This file signed itself, so it has not been altered since it was built and there is no record of who built it. That is what a program compiled on this computer, or installed by a package manager, normally looks like. Start it only if you know how it got there.");
    reveal_strlit("been altered since it ");
    reveal_strlit("installed by a package ");
    reveal_strlit("it. That is what a ");
    reveal_strlit("itself, so it has not ");
    reveal_strlit("like. Start it only if ");
    reveal_strlit("manager, normally looks ");
    reveal_strlit("no record of who built ");
    reveal_strlit("program compiled on ");
    reveal_strlit("there.");
    reveal_strlit("this computer, or ");
    reveal_strlit("was built and there is ");
    reveal_strlit("you know how it got ");
    assert("This file signed itself, so it has not been altered since it was built and there is no record of who built it. That is what a program compiled on this computer, or installed by a package manager, normally looks like. Start it only if you know how it got there."@ =~= "This file signed "@ + "itself, so it has not "@ + "been altered since it "@ + "was built and there is "@ + "no record of who built "@ + "it. That is what a "@ + "program compiled on "@ + "this computer, or "@ + "installed by a package "@ + "manager, normally looks "@ + "like. Start it only if "@ + "you know how it got "@ + "there."@);
    lemma_words_of_19();
    lemma_words_of_20();
    lemma_words_of_21();
    lemma_words_of_22();
    lemma_words_of_23();
    lemma_words_of_24();
    lemma_words_of_25();
    lemma_words_of_26();
    lemma_words_of_27();
    lemma_words_of_28();
    lemma_words_of_29();
    lemma_words_of_30();
    lemma_words_of_31();
    lemma_word_count_concat_at_space("This file signed "@, "itself, so it has not "@);
    lemma_word_count_concat_at_space(("This file signed "@ + "itself, so it has not "@), "been altered since it "@);
    lemma_word_count_concat_at_space((("This file signed "@ + "itself, so it has not "@) + "been altered since it "@), "was built and there is "@);
    lemma_word_count_concat_at_space(((("This file signed "@ + "itself, so it has not "@) + "been altered since it "@) + "was built and there is "@), "no record of who built "@);
    lemma_word_count_concat_at_space((((("This file signed "@ + "itself, so it has not "@) + "been altered since it "@) + "was built and there is "@) + "no record of who built "@), "it. That is what a "@);
    lemma_word_count_concat_at_space(((((("This file signed "@ + "itself, so it has not "@) + "been altered since it "@) + "was built and there is "@) + "no record of who built "@) + "it. That is what a "@), "program compiled on "@);
    lemma_word_count_concat_at_space((((((("This file signed "@ + "itself, so it has not "@) + "been altered since it "@) + "was built and there is "@) + "no record of who built "@) + "it. That is what a "@) + "program compiled on "@), "this computer, or "@);
    lemma_word_count_concat_at_space(((((((("This file signed "@ + "itself, so it has not "@) + "been altered since it "@) + "was built and there is "@) + "no record of who built "@) + "it. That is what a "@) + "program compiled on "@) + "this computer, or "@), "installed by a package "@);
    lemma_word_count_concat_at_space((((((((("This file signed "@ + "itself, so it has not "@) + "been altered since it "@) + "was built and there is "@) + "no record of who built "@) + "it. That is what a "@) + "program compiled on "@) + "this computer, or "@) + "installed by a package "@), "manager, normally looks "@);
    lemma_word_count_concat_at_space(((((((((("This file signed "@ + "itself, so it has not "@) + "been altered since it "@) + "was built and there is "@) + "no record of who built "@) + "it. That is what a "@) + "program compiled on "@) + "this computer, or "@) + "installed by a package "@) + "manager, normally looks "@), "like. Start it only if "@);
    lemma_word_count_concat_at_space((((((((((("This file signed "@ + "itself, so it has not "@) + "been altered since it "@) + "was built and there is "@) + "no record of who built "@) + "it. That is what a "@) + "program compiled on "@) + "this computer, or "@) + "installed by a package "@) + "manager, normally looks "@) + "like. Start it only if "@), "you know how it got "@);
    lemma_word_count_concat_at_space(((((((((((("This file signed "@ + "itself, so it has not "@) + "been altered since it "@) + "was built and there is "@) + "no record of who built "@) + "it. That is what a "@) + "program compiled on "@) + "this computer, or "@) + "installed by a package "@) + "manager, normally looks "@) + "like. Start it only if "@) + "you know how it got "@), "there."@);
    assert("This file signed itself, so it has not been altered since it was built and there is no record of who built it. That is what a program compiled on this computer, or installed by a package manager, normally looks like. Start it only if you know how it got there."@ =~= (((((((((((("This file signed "@ + "itself, so it has not "@) + "been altered since it "@) + "was built and there is "@) + "no record of who built "@) + "it. That is what a "@) + "program compiled on "@) + "this computer, or "@) + "installed by a package "@) + "manager, normally looks "@) + "like. Start it only if "@) + "you know how it got "@) + "there."@));
}

/// How many words one kind of verdict is said in, whatever names it carries.
proof fn lemma_verdict_words_4()
    ensures
        word_count("This file has been changed since it was signed, so it is not the file whoever signed it produced. Do not start it unless you know what changed it."@) >= 10,
{
    reveal_strlit("This file has been ");
    reveal_strlit("This file has been changed since it was signed, so it is not the file whoever signed it produced. Do not start it unless you know what changed it.");
    reveal_strlit("changed since it was ");
    reveal_strlit("it produced. Do not ");
    reveal_strlit("know what changed it.");
    reveal_strlit("signed, so it is not ");
    reveal_strlit("start it unless you ");
    reveal_strlit("the file whoever signed ");
    assert("This file has been changed since it was signed, so it is not the file whoever signed it produced. Do not start it unless you know what changed it."@ =~= "This file has been "@ + "changed since it was "@ + "signed, so it is not "@ + "the file whoever signed "@ + "it produced. Do not "@ + "start it unless you "@ + "know what changed it."@);
    lemma_words_of_32();
    lemma_words_of_33();
    lemma_words_of_34();
    lemma_words_of_35();
    lemma_words_of_36();
    lemma_words_of_37();
    lemma_words_of_38();
    lemma_word_count_concat_at_space("This file has been "@, "changed since it was "@);
    lemma_word_count_concat_at_space(("This file has been "@ + "changed since it was "@), "signed, so it is not "@);
    lemma_word_count_concat_at_space((("This file has been "@ + "changed since it was "@) + "signed, so it is not "@), "the file whoever signed "@);
    lemma_word_count_concat_at_space(((("This file has been "@ + "changed since it was "@) + "signed, so it is not "@) + "the file whoever signed "@), "it produced. Do not "@);
    lemma_word_count_concat_at_space((((("This file has been "@ + "changed since it was "@) + "signed, so it is not "@) + "the file whoever signed "@) + "it produced. Do not "@), "start it unless you "@);
    lemma_word_count_concat_at_space(((((("This file has been "@ + "changed since it was "@) + "signed, so it is not "@) + "the file whoever signed "@) + "it produced. Do not "@) + "start it unless you "@), "know what changed it."@);
    assert("This file has been changed since it was signed, so it is not the file whoever signed it produced. Do not start it unless you know what changed it."@ =~= (((((("This file has been "@ + "changed since it was "@) + "signed, so it is not "@) + "the file whoever signed "@) + "it produced. Do not "@) + "start it unless you "@) + "know what changed it."@));
}

/// How many words one kind of verdict is said in, whatever names it carries.
proof fn lemma_verdict_words_5(x: Seq<char>)
    ensures
        word_count("This file is signed "@ + x + ", and this computer does not trust whoever issued that signature. Start it only if you know why that certificate is not trusted here."@) >= 10,
{
    reveal_strlit(", and this computer ");
    reveal_strlit(", and this computer does not trust whoever issued that signature. Start it only if you know why that certificate is not trusted here.");
    reveal_strlit("Start it only if you ");
    reveal_strlit("This file is signed ");
    reveal_strlit("certificate is not ");
    reveal_strlit("does not trust whoever ");
    reveal_strlit("issued that signature. ");
    reveal_strlit("know why that ");
    reveal_strlit("trusted here.");
    assert(", and this computer does not trust whoever issued that signature. Start it only if you know why that certificate is not trusted here."@ =~= ", and this computer "@ + "does not trust whoever "@ + "issued that signature. "@ + "Start it only if you "@ + "know why that "@ + "certificate is not "@ + "trusted here."@);
    lemma_words_of_39();
    lemma_words_of_40();
    lemma_words_of_41();
    lemma_words_of_42();
    lemma_words_of_43();
    lemma_words_of_44();
    lemma_words_of_45();
    lemma_words_of_46();
    lemma_word_count_concat_at_space("This file is signed "@, x);
    lemma_word_count_concat(("This file is signed "@ + x), ", and this computer "@);
    lemma_word_count_concat_at_space((("This file is signed "@ + x) + ", and this computer "@), "does not trust whoever "@);
    lemma_word_count_concat_at_space(((("This file is signed "@ + x) + ", and this computer "@) + "does not trust whoever "@), "issued that signature. "@);
    lemma_word_count_concat_at_space((((("This file is signed "@ + x) + ", and this computer "@) + "does not trust whoever "@) + "issued that signature. "@), "Start it only if you "@);
    lemma_word_count_concat_at_space(((((("This file is signed "@ + x) + ", and this computer "@) + "does not trust whoever "@) + "issued that signature. "@) + "Start it only if you "@), "know why that "@);
    lemma_word_count_concat_at_space((((((("This file is signed "@ + x) + ", and this computer "@) + "does not trust whoever "@) + "issued that signature. "@) + "Start it only if you "@) + "know why that "@), "certificate is not "@);
    lemma_word_count_concat_at_space(((((((("This file is signed "@ + x) + ", and this computer "@) + "does not trust whoever "@) + "issued that signature. "@) + "Start it only if you "@) + "know why that "@) + "certificate is not "@), "trusted here."@);
    assert("This file is signed "@ + x + ", and this computer does not trust whoever issued that signature. Start it only if you know why that certificate is not trusted here."@ =~= (((((((("This file is signed "@ + x) + ", and this computer "@) + "does not trust whoever "@) + "issued that signature. "@) + "Start it only if you "@) + "know why that "@) + "certificate is not "@) + "trusted here."@));
}

/// How many words one kind of verdict is said in, whatever names it carries.
proof fn lemma_verdict_words_6(x: Seq<char>)
    ensures
        word_count(x + " has been revoked, which is what happens when a signing key is found to have been stolen or misused. Do not start it."@) >= 10,
{
    reveal_strlit(" has been revoked, ");
    reveal_strlit(" has been revoked, which is what happens when a signing key is found to have been stolen or misused. Do not start it.");
    reveal_strlit("found to have been ");
    reveal_strlit("not start it.");
    reveal_strlit("stolen or misused. Do ");
    reveal_strlit("when a signing key is ");
    reveal_strlit("which is what happens ");
    assert(" has been revoked, which is what happens when a signing key is found to have been stolen or misused. Do not start it."@ =~= " has been revoked, "@ + "which is what happens "@ + "when a signing key is "@ + "found to have been "@ + "stolen or misused. Do "@ + "not start it."@);
    lemma_words_of_47();
    lemma_words_of_48();
    lemma_words_of_49();
    lemma_words_of_50();
    lemma_words_of_51();
    lemma_words_of_52();
    lemma_word_count_concat(x, " has been revoked, "@);
    lemma_word_count_concat_at_space((x + " has been revoked, "@), "which is what happens "@);
    lemma_word_count_concat_at_space(((x + " has been revoked, "@) + "which is what happens "@), "when a signing key is "@);
    lemma_word_count_concat_at_space((((x + " has been revoked, "@) + "which is what happens "@) + "when a signing key is "@), "found to have been "@);
    lemma_word_count_concat_at_space(((((x + " has been revoked, "@) + "which is what happens "@) + "when a signing key is "@) + "found to have been "@), "stolen or misused. Do "@);
    lemma_word_count_concat_at_space((((((x + " has been revoked, "@) + "which is what happens "@) + "when a signing key is "@) + "found to have been "@) + "stolen or misused. Do "@), "not start it."@);
    assert(x + " has been revoked, which is what happens when a signing key is found to have been stolen or misused. Do not start it."@ =~= ((((((x + " has been revoked, "@) + "which is what happens "@) + "when a signing key is "@) + "found to have been "@) + "stolen or misused. Do "@) + "not start it."@));
}

/// How many words one kind of verdict is said in, whatever names it carries.
proof fn lemma_verdict_words_7(x: Seq<char>)
    ensures
        word_count(x + " had already expired, and nothing recorded when the signing happened. Start it only if you know where the file came from."@) >= 10,
{
    reveal_strlit(" had already expired, ");
    reveal_strlit(" had already expired, and nothing recorded when the signing happened. Start it only if you know where the file came from.");
    reveal_strlit("and nothing recorded ");
    reveal_strlit("file came from.");
    reveal_strlit("happened. Start it only ");
    reveal_strlit("if you know where the ");
    reveal_strlit("when the signing ");
    assert(" had already expired, and nothing recorded when the signing happened. Start it only if you know where the file came from."@ =~= " had already expired, "@ + "and nothing recorded "@ + "when the signing "@ + "happened. Start it only "@ + "if you know where the "@ + "file came from."@);
    lemma_words_of_53();
    lemma_words_of_54();
    lemma_words_of_55();
    lemma_words_of_56();
    lemma_words_of_57();
    lemma_words_of_58();
    lemma_word_count_concat(x, " had already expired, "@);
    lemma_word_count_concat_at_space((x + " had already expired, "@), "and nothing recorded "@);
    lemma_word_count_concat_at_space(((x + " had already expired, "@) + "and nothing recorded "@), "when the signing "@);
    lemma_word_count_concat_at_space((((x + " had already expired, "@) + "and nothing recorded "@) + "when the signing "@), "happened. Start it only "@);
    lemma_word_count_concat_at_space(((((x + " had already expired, "@) + "and nothing recorded "@) + "when the signing "@) + "happened. Start it only "@), "if you know where the "@);
    lemma_word_count_concat_at_space((((((x + " had already expired, "@) + "and nothing recorded "@) + "when the signing "@) + "happened. Start it only "@) + "if you know where the "@), "file came from."@);
    assert(x + " had already expired, and nothing recorded when the signing happened. Start it only if you know where the file came from."@ =~= ((((((x + " had already expired, "@) + "and nothing recorded "@) + "when the signing "@) + "happened. Start it only "@) + "if you know where the "@) + "file came from."@));
}

/// How many words one kind of verdict is said in, whatever names it carries.
proof fn lemma_verdict_words_8(x: Seq<char>)
    ensures
        word_count("Acter could not check who signed this file. "@ + x + " Start it only if you know where it came from."@) >= 10,
{
    reveal_strlit(" Start it only if you ");
    reveal_strlit(" Start it only if you know where it came from.");
    reveal_strlit("Acter could not check ");
    reveal_strlit("Acter could not check who signed this file. ");
    reveal_strlit("know where it came from.");
    reveal_strlit("who signed this file. ");
    assert("Acter could not check who signed this file. "@ =~= "Acter could not check "@ + "who signed this file. "@);
    assert(" Start it only if you know where it came from."@ =~= " Start it only if you "@ + "know where it came from."@);
    lemma_words_of_59();
    lemma_words_of_60();
    lemma_words_of_61();
    lemma_words_of_62();
    lemma_word_count_concat_at_space("Acter could not check "@, "who signed this file. "@);
    lemma_word_count_concat_at_space(("Acter could not check "@ + "who signed this file. "@), x);
    lemma_word_count_concat((("Acter could not check "@ + "who signed this file. "@) + x), " Start it only if you "@);
    lemma_word_count_concat_at_space(((("Acter could not check "@ + "who signed this file. "@) + x) + " Start it only if you "@), "know where it came from."@);
    assert("Acter could not check who signed this file. "@ + x + " Start it only if you know where it came from."@ =~= (((("Acter could not check "@ + "who signed this file. "@) + x) + " Start it only if you "@) + "know where it came from."@));
}

/// Every verdict says what happened rather than naming it: at least ten words.
pub proof fn lemma_every_verdict_takes_ten_words(verdict: Verdict)
    ensures
        word_count(verdict_said(verdict)) >= 10,
{
    match verdict {
        Verdict::Trusted { signer: Signer::Other { name } } => {
            lemma_verdict_words_0(name@);
        },
        Verdict::Trusted { signer } => {
            lemma_verdict_words_1(vendor_of(signer));
        },
        Verdict::Untrusted { fault: Fault::NotSigned } => {
            lemma_verdict_words_2();
        },
        Verdict::Untrusted { fault: Fault::AdHoc } => {
            lemma_verdict_words_3();
        },
        Verdict::Untrusted { fault: Fault::Tampered } => {
            lemma_verdict_words_4();
        },
        Verdict::Untrusted { fault: Fault::UntrustedRoot { signer } } => {
            lemma_verdict_words_5(by_said(opt_view(signer)));
        },
        Verdict::Untrusted { fault: Fault::Revoked { signer } } => {
            lemma_verdict_words_6(certificate_said(opt_view(signer)));
        },
        Verdict::Untrusted { fault: Fault::Expired { signer } } => {
            lemma_verdict_words_7(certificate_said(opt_view(signer)));
        },
        Verdict::Unverifiable { why } => {
            lemma_verdict_words_8(why@);
        },
    }
}

/// Which kind of verdict this is: its variant, and which signer or fault it names.
pub open spec fn verdict_kind(verdict: Verdict) -> int {
    match verdict {
        Verdict::Trusted { signer: Signer::Microsoft } => 0,
        Verdict::Trusted { signer: Signer::Apple } => 1,
        Verdict::Trusted { signer: Signer::Other { .. } } => 2,
        Verdict::Untrusted { fault: Fault::NotSigned } => 3,
        Verdict::Untrusted { fault: Fault::AdHoc } => 4,
        Verdict::Untrusted { fault: Fault::Tampered } => 5,
        Verdict::Untrusted { fault: Fault::UntrustedRoot { .. } } => 6,
        Verdict::Untrusted { fault: Fault::Revoked { .. } } => 7,
        Verdict::Untrusted { fault: Fault::Expired { .. } } => 8,
        Verdict::Unverifiable { .. } => 9,
    }
}

proof fn lemma_ends_with_tail(a: Seq<char>, b: Seq<char>)
    ensures
        ends_with(a + b, b),
{
    assert((a + b).subrange(a.len() as int, (a + b).len() as int) =~= b);
}

/// The sentence each kind of verdict ends with.
pub open spec fn verdict_ending(kind: int) -> Seq<char> {
    if kind == 0 {
        " signed it. There is nothing to decide before starting it."@
    }
    else if kind == 1 {
        " signed it. There is nothing to decide before starting it."@
    }
    else if kind == 2 {
        ". Start it if that is who you expect to have built it."@
    }
    else if kind == 3 {
        "Nothing has signed this file, so there is no record of who built it or whether it has been changed since. Start it only if you know how it got there."@
    }
    else if kind == 4 {
        "This file signed itself, so it has not been altered since it was built and there is no record of who built it. That is what a program compiled on this computer, or installed by a package manager, normally looks like. Start it only if you know how it got there."@
    }
    else if kind == 5 {
        "This file has been changed since it was signed, so it is not the file whoever signed it produced. Do not start it unless you know what changed it."@
    }
    else if kind == 6 {
        ", and this computer does not trust whoever issued that signature. Start it only if you know why that certificate is not trusted here."@
    }
    else if kind == 7 {
        " has been revoked, which is what happens when a signing key is found to have been stolen or misused. Do not start it."@
    }
    else if kind == 8 {
        " had already expired, and nothing recorded when the signing happened. Start it only if you know where the file came from."@
    }
    else if kind == 9 {
        " Start it only if you know where it came from."@
    } else {
        Seq::empty()
    }
}

proof fn lemma_verdict_ends_as_its_kind(verdict: Verdict)
    ensures
        ends_with(verdict_said(verdict), verdict_ending(verdict_kind(verdict))),
{
    match verdict {
        Verdict::Trusted { signer } => match signer {
            Signer::Other { name } => lemma_ends_with_tail("This computer trusts this file's signature, and it was signed by "@ + name@, verdict_ending(2)),
            _ => lemma_ends_with_tail("This computer trusts this file's signature, and "@ + vendor_of(signer), verdict_ending(0)),
        },
        Verdict::Untrusted { fault } => match fault {
            Fault::NotSigned => {
                lemma_ends_with_tail(Seq::<char>::empty(), verdict_ending(3));
                assert(Seq::<char>::empty() + verdict_ending(3) =~= verdict_ending(3));
            },
            Fault::AdHoc => {
                lemma_ends_with_tail(Seq::<char>::empty(), verdict_ending(4));
                assert(Seq::<char>::empty() + verdict_ending(4) =~= verdict_ending(4));
            },
            Fault::Tampered => {
                lemma_ends_with_tail(Seq::<char>::empty(), verdict_ending(5));
                assert(Seq::<char>::empty() + verdict_ending(5) =~= verdict_ending(5));
            },
            Fault::UntrustedRoot { signer } => lemma_ends_with_tail("This file is signed "@ + by_said(opt_view(signer)), verdict_ending(6)),
            Fault::Revoked { signer } => lemma_ends_with_tail(certificate_said(opt_view(signer)), verdict_ending(7)),
            Fault::Expired { signer } => lemma_ends_with_tail(certificate_said(opt_view(signer)), verdict_ending(8)),
        },
        Verdict::Unverifiable { why } => lemma_ends_with_tail("Acter could not check who signed this file. "@ + why@, verdict_ending(9)),
    }
}

/// Two texts that end with endings differing `d` characters from the end are different.
proof fn lemma_endings_tell_apart(s: Seq<char>, t: Seq<char>, e: Seq<char>, f: Seq<char>, d: int)
    requires
        ends_with(s, e),
        ends_with(t, f),
        0 <= d < e.len(),
        d < f.len(),
        e[e.len() - 1 - d] != f[f.len() - 1 - d],
    ensures
        s != t,
{
    if s == t {
        assert(s.subrange(s.len() - e.len(), s.len() as int)[e.len() - 1 - d] == s[s.len() - 1 - d]);
        assert(t.subrange(t.len() - f.len(), t.len() as int)[f.len() - 1 - d] == t[t.len() - 1 - d]);
    }
}

/// No two kinds of verdict are said the same way, whatever names or reasons they carry.
pub proof fn lemma_verdicts_are_said_differently(verdict: Verdict, other: Verdict)
    requires
        verdict_kind(verdict) != verdict_kind(other),
    ensures
        verdict_said(verdict) != verdict_said(other),
{
    reveal_strlit(" signed it. There is nothing to decide before starting it.");
    reveal_strlit(" signed it. There is nothing to decide before starting it.");
    reveal_strlit(". Start it if that is who you expect to have built it.");
    reveal_strlit("Nothing has signed this file, so there is no record of who built it or whether it has been changed since. Start it only if you know how it got there.");
    reveal_strlit("This file signed itself, so it has not been altered since it was built and there is no record of who built it. That is what a program compiled on this computer, or installed by a package manager, normally looks like. Start it only if you know how it got there.");
    reveal_strlit("This file has been changed since it was signed, so it is not the file whoever signed it produced. Do not start it unless you know what changed it.");
    reveal_strlit(", and this computer does not trust whoever issued that signature. Start it only if you know why that certificate is not trusted here.");
    reveal_strlit(" has been revoked, which is what happens when a signing key is found to have been stolen or misused. Do not start it.");
    reveal_strlit(" had already expired, and nothing recorded when the signing happened. Start it only if you know where the file came from.");
    reveal_strlit(" Start it only if you know where it came from.");
    lemma_verdict_ends_as_its_kind(verdict);
    lemma_verdict_ends_as_its_kind(other);
    let (a, b) = (verdict_kind(verdict), verdict_kind(other));
    if (a == 0 && b == 2) || (a == 2 && b == 0) {
        lemma_endings_tell_apart(verdict_said(verdict), verdict_said(other), verdict_ending(a), verdict_ending(b), 4);
    }
    if (a == 0 && b == 3) || (a == 3 && b == 0) {
        lemma_endings_tell_apart(verdict_said(verdict), verdict_said(other), verdict_ending(a), verdict_ending(b), 1);
    }
    if (a == 0 && b == 4) || (a == 4 && b == 0) {
        lemma_endings_tell_apart(verdict_said(verdict), verdict_said(other), verdict_ending(a), verdict_ending(b), 1);
    }
    if (a == 0 && b == 5) || (a == 5 && b == 0) {
        lemma_endings_tell_apart(verdict_said(verdict), verdict_said(other), verdict_ending(a), verdict_ending(b), 4);
    }
    if (a == 0 && b == 6) || (a == 6 && b == 0) {
        lemma_endings_tell_apart(verdict_said(verdict), verdict_said(other), verdict_ending(a), verdict_ending(b), 1);
    }
    if (a == 0 && b == 7) || (a == 7 && b == 0) {
        lemma_endings_tell_apart(verdict_said(verdict), verdict_said(other), verdict_ending(a), verdict_ending(b), 4);
    }
    if (a == 0 && b == 8) || (a == 8 && b == 0) {
        lemma_endings_tell_apart(verdict_said(verdict), verdict_said(other), verdict_ending(a), verdict_ending(b), 1);
    }
    if (a == 0 && b == 9) || (a == 9 && b == 0) {
        lemma_endings_tell_apart(verdict_said(verdict), verdict_said(other), verdict_ending(a), verdict_ending(b), 1);
    }
    if (a == 1 && b == 2) || (a == 2 && b == 1) {
        lemma_endings_tell_apart(verdict_said(verdict), verdict_said(other), verdict_ending(a), verdict_ending(b), 4);
    }
    if (a == 1 && b == 3) || (a == 3 && b == 1) {
        lemma_endings_tell_apart(verdict_said(verdict), verdict_said(other), verdict_ending(a), verdict_ending(b), 1);
    }
    if (a == 1 && b == 4) || (a == 4 && b == 1) {
        lemma_endings_tell_apart(verdict_said(verdict), verdict_said(other), verdict_ending(a), verdict_ending(b), 1);
    }
    if (a == 1 && b == 5) || (a == 5 && b == 1) {
        lemma_endings_tell_apart(verdict_said(verdict), verdict_said(other), verdict_ending(a), verdict_ending(b), 4);
    }
    if (a == 1 && b == 6) || (a == 6 && b == 1) {
        lemma_endings_tell_apart(verdict_said(verdict), verdict_said(other), verdict_ending(a), verdict_ending(b), 1);
    }
    if (a == 1 && b == 7) || (a == 7 && b == 1) {
        lemma_endings_tell_apart(verdict_said(verdict), verdict_said(other), verdict_ending(a), verdict_ending(b), 4);
    }
    if (a == 1 && b == 8) || (a == 8 && b == 1) {
        lemma_endings_tell_apart(verdict_said(verdict), verdict_said(other), verdict_ending(a), verdict_ending(b), 1);
    }
    if (a == 1 && b == 9) || (a == 9 && b == 1) {
        lemma_endings_tell_apart(verdict_said(verdict), verdict_said(other), verdict_ending(a), verdict_ending(b), 1);
    }
    if (a == 2 && b == 3) || (a == 3 && b == 2) {
        lemma_endings_tell_apart(verdict_said(verdict), verdict_said(other), verdict_ending(a), verdict_ending(b), 1);
    }
    if (a == 2 && b == 4) || (a == 4 && b == 2) {
        lemma_endings_tell_apart(verdict_said(verdict), verdict_said(other), verdict_ending(a), verdict_ending(b), 1);
    }
    if (a == 2 && b == 5) || (a == 5 && b == 2) {
        lemma_endings_tell_apart(verdict_said(verdict), verdict_said(other), verdict_ending(a), verdict_ending(b), 4);
    }
    if (a == 2 && b == 6) || (a == 6 && b == 2) {
        lemma_endings_tell_apart(verdict_said(verdict), verdict_said(other), verdict_ending(a), verdict_ending(b), 1);
    }
    if (a == 2 && b == 7) || (a == 7 && b == 2) {
        lemma_endings_tell_apart(verdict_said(verdict), verdict_said(other), verdict_ending(a), verdict_ending(b), 5);
    }
    if (a == 2 && b == 8) || (a == 8 && b == 2) {
        lemma_endings_tell_apart(verdict_said(verdict), verdict_said(other), verdict_ending(a), verdict_ending(b), 1);
    }
    if (a == 2 && b == 9) || (a == 9 && b == 2) {
        lemma_endings_tell_apart(verdict_said(verdict), verdict_said(other), verdict_ending(a), verdict_ending(b), 1);
    }
    if (a == 3 && b == 4) || (a == 4 && b == 3) {
        lemma_endings_tell_apart(verdict_said(verdict), verdict_said(other), verdict_ending(a), verdict_ending(b), 46);
    }
    if (a == 3 && b == 5) || (a == 5 && b == 3) {
        lemma_endings_tell_apart(verdict_said(verdict), verdict_said(other), verdict_ending(a), verdict_ending(b), 1);
    }
    if (a == 3 && b == 6) || (a == 6 && b == 3) {
        lemma_endings_tell_apart(verdict_said(verdict), verdict_said(other), verdict_ending(a), verdict_ending(b), 5);
    }
    if (a == 3 && b == 7) || (a == 7 && b == 3) {
        lemma_endings_tell_apart(verdict_said(verdict), verdict_said(other), verdict_ending(a), verdict_ending(b), 1);
    }
    if (a == 3 && b == 8) || (a == 8 && b == 3) {
        lemma_endings_tell_apart(verdict_said(verdict), verdict_said(other), verdict_ending(a), verdict_ending(b), 1);
    }
    if (a == 3 && b == 9) || (a == 9 && b == 3) {
        lemma_endings_tell_apart(verdict_said(verdict), verdict_said(other), verdict_ending(a), verdict_ending(b), 1);
    }
    if (a == 4 && b == 5) || (a == 5 && b == 4) {
        lemma_endings_tell_apart(verdict_said(verdict), verdict_said(other), verdict_ending(a), verdict_ending(b), 1);
    }
    if (a == 4 && b == 6) || (a == 6 && b == 4) {
        lemma_endings_tell_apart(verdict_said(verdict), verdict_said(other), verdict_ending(a), verdict_ending(b), 5);
    }
    if (a == 4 && b == 7) || (a == 7 && b == 4) {
        lemma_endings_tell_apart(verdict_said(verdict), verdict_said(other), verdict_ending(a), verdict_ending(b), 1);
    }
    if (a == 4 && b == 8) || (a == 8 && b == 4) {
        lemma_endings_tell_apart(verdict_said(verdict), verdict_said(other), verdict_ending(a), verdict_ending(b), 1);
    }
    if (a == 4 && b == 9) || (a == 9 && b == 4) {
        lemma_endings_tell_apart(verdict_said(verdict), verdict_said(other), verdict_ending(a), verdict_ending(b), 1);
    }
    if (a == 5 && b == 6) || (a == 6 && b == 5) {
        lemma_endings_tell_apart(verdict_said(verdict), verdict_said(other), verdict_ending(a), verdict_ending(b), 1);
    }
    if (a == 5 && b == 7) || (a == 7 && b == 5) {
        lemma_endings_tell_apart(verdict_said(verdict), verdict_said(other), verdict_ending(a), verdict_ending(b), 4);
    }
    if (a == 5 && b == 8) || (a == 8 && b == 5) {
        lemma_endings_tell_apart(verdict_said(verdict), verdict_said(other), verdict_ending(a), verdict_ending(b), 1);
    }
    if (a == 5 && b == 9) || (a == 9 && b == 5) {
        lemma_endings_tell_apart(verdict_said(verdict), verdict_said(other), verdict_ending(a), verdict_ending(b), 1);
    }
    if (a == 6 && b == 7) || (a == 7 && b == 6) {
        lemma_endings_tell_apart(verdict_said(verdict), verdict_said(other), verdict_ending(a), verdict_ending(b), 1);
    }
    if (a == 6 && b == 8) || (a == 8 && b == 6) {
        lemma_endings_tell_apart(verdict_said(verdict), verdict_said(other), verdict_ending(a), verdict_ending(b), 1);
    }
    if (a == 6 && b == 9) || (a == 9 && b == 6) {
        lemma_endings_tell_apart(verdict_said(verdict), verdict_said(other), verdict_ending(a), verdict_ending(b), 1);
    }
    if (a == 7 && b == 8) || (a == 8 && b == 7) {
        lemma_endings_tell_apart(verdict_said(verdict), verdict_said(other), verdict_ending(a), verdict_ending(b), 1);
    }
    if (a == 7 && b == 9) || (a == 9 && b == 7) {
        lemma_endings_tell_apart(verdict_said(verdict), verdict_said(other), verdict_ending(a), verdict_ending(b), 1);
    }
    if (a == 8 && b == 9) || (a == 9 && b == 8) {
        lemma_endings_tell_apart(verdict_said(verdict), verdict_said(other), verdict_ending(a), verdict_ending(b), 11);
    }
    if (a == 0 && b == 1) || (a == 1 && b == 0) {
        reveal_strlit("This computer trusts this file's signature, and ");
        reveal_strlit("Microsoft");
        reveal_strlit("Apple");
        let at = "This computer trusts this file's signature, and "@.len() as int;
        assert(verdict_said(verdict)[at] != verdict_said(other)[at]);
    }
}

pub open spec fn verdict_note(verdict: Verdict) -> Option<Seq<char>> {
    match verdict {
        Verdict::Trusted { signer } => match signer {
            Signer::Other { name } => Some("signed by "@ + name@),
            _ => None,
        },
        Verdict::Untrusted { fault } => match fault {
            Fault::NotSigned => Some("started although nothing has signed it"@),
            Fault::AdHoc => Some("started although nothing records who built it"@),
            Fault::Tampered => Some("started although it has been changed since it was signed"@),
            Fault::UntrustedRoot { .. } => Some(
                "started although this computer does not trust who signed it"@,
            ),
            Fault::Revoked { .. } => Some(
                "started although its signing certificate has been revoked"@,
            ),
            Fault::Expired { .. } => Some("started although its signing certificate had expired"@),
        },
        Verdict::Unverifiable { .. } => Some(
            "started without Acter being able to check who signed it"@,
        ),
    }
}

fn optional(signer: &Option<String>) -> (r: Option<&str>)
    ensures
        match r {
            Some(s) => opt_view(*signer) == Some(s@),
            None => signer is None,
        },
{
    match signer {
        Some(s) => Some(s.as_str()),
        None => None,
    }
}

pub fn by_whom(signer: Option<&str>) -> (r: String)
    ensures
        r@ == by_said(match signer {
            Some(s) => Some(s@),
            None => None,
        }),
{
    match signer {
        None => copied("by somebody"),
        Some(name) => concat("by ", name),
    }
}

pub fn certificate(signer: Option<&str>) -> (r: String)
    ensures
        r@ == certificate_said(match signer {
            Some(s) => Some(s@),
            None => None,
        }),
{
    match signer {
        None => copied("The certificate this file was signed with"),
        Some(name) => {
            let mut s = copied("The certificate ");
            s.append(name);
            s.append(" signed this file with");
            s
        },
    }
}

impl Verdict {
    /// Only a trusted file starts without asking.
    pub fn settled(&self) -> (r: bool)
        ensures
            r == verdict_settled(*self),
    {
        matches!(self, Verdict::Trusted { .. })
    }

    pub fn signer(&self) -> (r: Option<String>)
        ensures
            opt_view(r) == verdict_signer(*self),
    {
        match self {
            Verdict::Trusted { signer } => Some(copied(signer.vendor())),
            Verdict::Untrusted { fault } => match fault {
                Fault::UntrustedRoot { signer } => signer.clone(),
                Fault::Revoked { signer } => signer.clone(),
                Fault::Expired { signer } => signer.clone(),
                _ => None,
            },
            Verdict::Unverifiable { .. } => None,
        }
    }

    /// Whole sentences ending in what to do next.
    pub fn said(&self) -> (r: String)
        ensures
            r@ == verdict_said(*self),
    {
        match self {
            Verdict::Trusted { signer } => match signer {
                Signer::Other { name } => {
                    let mut s = copied(
                        "This computer trusts this file's signature, and it was signed by ",
                    );
                    s.append(name.as_str());
                    s.append(". Start it if that is who you expect to have built it.");
                    s
                },
                _ => {
                    let mut s = copied("This computer trusts this file's signature, and ");
                    s.append(signer.vendor());
                    s.append(" signed it. There is nothing to decide before starting it.");
                    s
                },
            },
            Verdict::Untrusted { fault } => match fault {
                Fault::NotSigned => copied(
                    "Nothing has signed this file, so there is no record of who built it or whether it has been changed since. Start it only if you know how it got there.",
                ),
                Fault::AdHoc => copied(
                    "This file signed itself, so it has not been altered since it was built and there is no record of who built it. That is what a program compiled on this computer, or installed by a package manager, normally looks like. Start it only if you know how it got there.",
                ),
                Fault::Tampered => copied(
                    "This file has been changed since it was signed, so it is not the file whoever signed it produced. Do not start it unless you know what changed it.",
                ),
                Fault::UntrustedRoot { signer } => {
                    let mut s = copied("This file is signed ");
                    s.append(by_whom(optional(signer)).as_str());
                    s.append(
                        ", and this computer does not trust whoever issued that signature. Start it only if you know why that certificate is not trusted here.",
                    );
                    s
                },
                Fault::Revoked { signer } => {
                    let mut s = certificate(optional(signer));
                    s.append(
                        " has been revoked, which is what happens when a signing key is found to have been stolen or misused. Do not start it.",
                    );
                    s
                },
                Fault::Expired { signer } => {
                    let mut s = certificate(optional(signer));
                    s.append(
                        " had already expired, and nothing recorded when the signing happened. Start it only if you know where the file came from.",
                    );
                    s
                },
            },
            Verdict::Unverifiable { why } => {
                let mut s = copied("Acter could not check who signed this file. ");
                s.append(why.as_str());
                s.append(" Start it only if you know where it came from.");
                s
            },
        }
    }

    /// Said once at connection about a file started anyway, and `None` when Microsoft or
    /// Apple signed it.
    pub fn note(&self) -> (r: Option<String>)
        ensures
            opt_view(r) == verdict_note(*self),
    {
        match self {
            Verdict::Trusted { signer } => match signer {
                Signer::Other { name } => Some(concat("signed by ", name.as_str())),
                _ => None,
            },
            Verdict::Untrusted { fault } => match fault {
                Fault::NotSigned => Some(copied("started although nothing has signed it")),
                Fault::AdHoc => Some(copied("started although nothing records who built it")),
                Fault::Tampered => Some(
                    copied("started although it has been changed since it was signed"),
                ),
                Fault::UntrustedRoot { .. } => Some(
                    copied("started although this computer does not trust who signed it"),
                ),
                Fault::Revoked { .. } => Some(
                    copied("started although its signing certificate has been revoked"),
                ),
                Fault::Expired { .. } => Some(
                    copied("started although its signing certificate had expired"),
                ),
            },
            Verdict::Unverifiable { .. } => Some(
                copied("started without Acter being able to check who signed it"),
            ),
        }
    }
}

/// Everything a person had to agree to is said when the file starts: only a file
/// Microsoft or Apple signed goes unremarked.
pub proof fn lemma_only_a_vendor_goes_unremarked(verdict: Verdict)
    ensures
        verdict_note(verdict) is None <==> (verdict matches Verdict::Trusted { signer } && !(
        signer is Other)),
{
}

} // verus!
