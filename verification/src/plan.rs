//! What a scan of one target consists of: which check categories run, in
//! which order, which requests each is made of, and which exploits follow.

use vstd::prelude::*;
use vstd::string::*;
use crate::payloads::{
    cl_te_payloads_of, get_cl_te_payloads, get_h2_payloads, get_h2c_payloads, get_te_cl_payloads,
    get_te_te_payloads, h2_payloads_of, h2c_payloads_of, te_cl_payloads_of, te_te_payloads_of,
};
use crate::text::{decimal_u16, is_listed, listed, parse_u16, same_text, split_list, texts_of};

verus! {

/// A check category: one family of disagreements between a front end and a
/// back end.
#[derive(Debug, Clone, Copy, PartialEq, Eq, Structural)]
pub enum CheckKind {
    /// The front end goes by `Content-Length`, the back end by `Transfer-Encoding`.
    ClTe,
    /// The front end goes by `Transfer-Encoding`, the back end by `Content-Length`.
    TeCl,
    /// Both go by `Transfer-Encoding`, and one of them can be led astray.
    TeTe,
    /// An upgrade to HTTP/2 over cleartext.
    H2c,
    /// HTTP/2 handed on as HTTP/1.1.
    H2,
}

impl CheckKind {
    /// The name by which the category is chosen and reported.
    pub open spec fn name_of(self) -> Seq<char> {
        match self {
            CheckKind::ClTe => "cl-te"@,
            CheckKind::TeCl => "te-cl"@,
            CheckKind::TeTe => "te-te"@,
            CheckKind::H2c => "h2c"@,
            CheckKind::H2 => "h2"@,
        }
    }

    /// The name by which the category is chosen and reported.
    pub fn name(&self) -> (text: &'static str)
        ensures
            text@ == self.name_of(),
    {
        match self {
            CheckKind::ClTe => "cl-te",
            CheckKind::TeCl => "te-cl",
            CheckKind::TeTe => "te-te",
            CheckKind::H2c => "h2c",
            CheckKind::H2 => "h2",
        }
    }

    /// The attack requests of the category.
    pub open spec fn payloads_of(
        self,
        path: Seq<char>,
        host: Seq<char>,
        method: Seq<char>,
        custom_headers: Seq<Seq<char>>,
        cookies: Seq<Seq<char>>,
    ) -> Seq<Seq<char>> {
        match self {
            CheckKind::ClTe => cl_te_payloads_of(path, host, method, custom_headers, cookies),
            CheckKind::TeCl => te_cl_payloads_of(path, host, method, custom_headers, cookies),
            CheckKind::TeTe => te_te_payloads_of(path, host, method, custom_headers, cookies),
            CheckKind::H2c => h2c_payloads_of(path, host, method, custom_headers, cookies),
            CheckKind::H2 => h2_payloads_of(path, host, method, custom_headers, cookies),
        }
    }

    /// Generates the attack requests of the category.
    pub fn payloads(
        &self,
        path: &str,
        host: &str,
        method: &str,
        custom_headers: &[String],
        cookies: &[String],
    ) -> (requests: Vec<String>)
        ensures
            texts_of(requests@) == self.payloads_of(
                path@,
                host@,
                method@,
                texts_of(custom_headers@),
                texts_of(cookies@),
            ),
    {
        match self {
            CheckKind::ClTe => get_cl_te_payloads(path, host, method, custom_headers, cookies),
            CheckKind::TeCl => get_te_cl_payloads(path, host, method, custom_headers, cookies),
            CheckKind::TeTe => get_te_te_payloads(path, host, method, custom_headers, cookies),
            CheckKind::H2c => get_h2c_payloads(path, host, method, custom_headers, cookies),
            CheckKind::H2 => get_h2_payloads(path, host, method, custom_headers, cookies),
        }
    }
}

/// All check categories, in the order in which they run.
pub open spec fn all_kinds() -> Seq<CheckKind> {
    seq![CheckKind::ClTe, CheckKind::TeCl, CheckKind::TeTe, CheckKind::H2c, CheckKind::H2]
}

/// All check categories, in the order in which they run.
pub fn all_checks() -> (kinds: Vec<CheckKind>)
    ensures
        kinds@ == all_kinds(),
{
    let mut kinds: Vec<CheckKind> = Vec::new();
    kinds.push(CheckKind::ClTe);
    kinds.push(CheckKind::TeCl);
    kinds.push(CheckKind::TeTe);
    kinds.push(CheckKind::H2c);
    kinds.push(CheckKind::H2);
    assert(kinds@ =~= all_kinds());
    kinds
}

/// A category runs where no choice was made, or where its name is among the
/// names of the choice.
pub open spec fn is_chosen(kind: CheckKind, choice: Option<Seq<char>>) -> bool {
    match choice {
        Some(list) => listed(list).contains(kind.name_of()),
        None => true,
    }
}

/// The categories that run, in the order in which they run.
pub open spec fn chosen_kinds(choice: Option<Seq<char>>) -> Seq<CheckKind> {
    all_kinds().filter(|kind: CheckKind| is_chosen(kind, choice))
}

/// Picks the categories that a choice names. The choice is a list of names
/// separated by commas; the order of the categories does not follow it.
pub fn select_checks(choice: Option<&str>) -> (kinds: Vec<CheckKind>)
    ensures
        kinds@ == chosen_kinds(
            match choice {
                Some(list) => Some(list@),
                None => None,
            },
        ),
{
    let ghost choice_text: Option<Seq<char>> = match choice {
        Some(list) => Some(list@),
        None => None,
    };
    let ghost pick = |kind: CheckKind| is_chosen(kind, choice_text);
    let all = all_checks();
    let names = match choice {
        Some(list) => Some(split_list(list)),
        None => None,
    };
    let mut kinds: Vec<CheckKind> = Vec::new();
    let mut i: usize = 0;
    proof {
        reveal(Seq::filter);
        assert(all@.take(0) =~= Seq::<CheckKind>::empty());
    }
    while i < all.len()
        invariant
            i <= all.len(),
            all@ == all_kinds(),
            pick == |kind: CheckKind| is_chosen(kind, choice_text),
            names is Some == choice_text is Some,
            names matches Some(n) ==> texts_of(n@) == listed(choice_text->0),
            kinds@ == all@.take(i as int).filter(pick),
        decreases all.len() - i,
    {
        let kind = all[i];
        let wanted = match &names {
            Some(n) => is_listed(n, kind.name()),
            None => true,
        };
        proof {
            reveal(Seq::filter);
            assert(all@.take(i + 1).drop_last() == all@.take(i as int));
            assert(all@.take(i + 1).last() == kind);
            assert(wanted == pick(kind));
        }
        if wanted {
            kinds.push(kind);
        }
        i += 1;
    }
    assert(all@.take(all.len() as int) == all@);
    kinds
}

/// The category that runs after `done` of them have run: the next in the
/// list, unless the list is exhausted or the scan is to stop at the first
/// vulnerable category and one was found.
pub fn next_check(kinds: &Vec<CheckKind>, done: usize, found: bool, exit_first: bool) -> (next:
    Option<CheckKind>)
    ensures
        next == if done < kinds.len() && !(exit_first && found) {
            Some(kinds@[done as int])
        } else {
            None::<CheckKind>
        },
{
    if done < kinds.len() && !(exit_first && found) {
        Some(kinds[done])
    } else {
        None
    }
}

/// An exploit that can follow a finding.
#[derive(Debug)]
pub enum ExploitKind {
    /// Reaching services that listen on the target's own host.
    LocalhostAccess,
    /// Trying paths behind the front end.
    PathFuzz,
    /// A name that stands for no exploit.
    Unknown(String),
}

/// The mathematical content of an `ExploitKind`.
pub enum ExploitView {
    LocalhostAccess,
    PathFuzz,
    Unknown(Seq<char>),
}

impl View for ExploitKind {
    type V = ExploitView;

    open spec fn view(&self) -> ExploitView {
        match self {
            ExploitKind::LocalhostAccess => ExploitView::LocalhostAccess,
            ExploitKind::PathFuzz => ExploitView::PathFuzz,
            ExploitKind::Unknown(name) => ExploitView::Unknown(name@),
        }
    }
}

/// The exploit that a name stands for.
pub open spec fn exploit_named(name: Seq<char>) -> ExploitView {
    if name == "localhost-access"@ {
        ExploitView::LocalhostAccess
    } else if name == "path-fuzz"@ {
        ExploitView::PathFuzz
    } else {
        ExploitView::Unknown(name)
    }
}

/// The views of the exploits, in order.
pub open spec fn exploit_views(kinds: Seq<ExploitKind>) -> Seq<ExploitView> {
    Seq::new(kinds.len(), |i: int| kinds[i]@)
}

/// Reads the exploits that a list of names separated by commas asks for, in
/// the order of the list.
pub fn parse_exploits(list: &str) -> (kinds: Vec<ExploitKind>)
    ensures
        exploit_views(kinds@) == listed(list@).map_values(|name: Seq<char>| exploit_named(name)),
{
    let names = split_list(list);
    let mut kinds: Vec<ExploitKind> = Vec::new();
    let mut i: usize = 0;
    while i < names.len()
        invariant
            i <= names.len(),
            kinds.len() == i,
            forall|j: int| 0 <= j < i ==> kinds@[j]@ == exploit_named(names@[j]@),
        decreases names.len() - i,
    {
        let name = names[i].as_str();
        let kind = if same_text(name, "localhost-access") {
            ExploitKind::LocalhostAccess
        } else if same_text(name, "path-fuzz") {
            ExploitKind::PathFuzz
        } else {
            ExploitKind::Unknown(String::from_str(name))
        };
        kinds.push(kind);
        i += 1;
    }
    assert(exploit_views(kinds@) =~= listed(list@).map_values(
        |name: Seq<char>| exploit_named(name),
    ));
    kinds
}

/// The ports that a list separated by commas names: each field that writes
/// an unsigned 16-bit number, in the order of the list. Other fields are
/// passed over.
pub open spec fn ports_of(list: Seq<char>) -> Seq<u16> {
    listed(list).filter_map(|name: Seq<char>| decimal_u16(name))
}

/// Reads the ports that a list separated by commas names.
pub fn parse_ports(list: &str) -> (ports: Vec<u16>)
    ensures
        ports@ == ports_of(list@),
{
    let names = split_list(list);
    let ghost all = listed(list@);
    let ghost read = |name: Seq<char>| decimal_u16(name);
    let mut ports: Vec<u16> = Vec::new();
    let mut i: usize = 0;
    assert(all.take(0) =~= Seq::<Seq<char>>::empty());
    while i < names.len()
        invariant
            i <= names.len(),
            all == texts_of(names@),
            read == |name: Seq<char>| decimal_u16(name),
            ports@ == all.take(i as int).filter_map(read),
        decreases names.len() - i,
    {
        proof {
            all.lemma_filter_map_take_succ(read, i as int);
        }
        match parse_u16(names[i].as_str()) {
            Some(port) => {
                ports.push(port);
                assert(ports@ =~= all.take(i as int).filter_map(read) + seq![port]);
            },
            None => {},
        }
        i += 1;
    }
    assert(all.take(names.len() as int) == all);
    ports
}

} // verus!
