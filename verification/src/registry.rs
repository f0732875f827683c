//! The Docker registry: whether it can be reached, and which mirrors stand in for it.

use crate::json::alike;
use crate::json::depth_limit;
use crate::json::empty_object;
use crate::json::json_view;
use crate::json::member;
use crate::json::members_of;
use crate::json::message;
use crate::json::nests_at_most;
use crate::json::parse;
use crate::json::parsed_json;
use crate::json::pretty;
use crate::json::pretty_text;
use crate::json::remove_member;
use crate::json::set_member;
use crate::json::text_array;
use crate::json::text_array_view;
use crate::json::JsonView;
use crate::text::contains;
use crate::text::middle_occurs;
use crate::text::no_texts;
use crate::text::occurs;
use crate::text::occurs_at;
use crate::text::push_copy;
use crate::text::push_text;
use crate::text::same;
use crate::text::starts_with;
use crate::text::texts;
use crate::text::trim;
use crate::text::trim_end_matches;
use crate::text::trimmed;
use crate::text::without_trailing;
use vstd::prelude::*;

verus! {

/// How well the Docker registry can be reached.
#[derive(Clone, Debug)]
pub enum NetworkStatus {
    Good,
    Slow(String),
    Blocked(String),
    Unknown(String),
}

/// What came of pulling a small image from the registry.
#[derive(Clone, Debug)]
pub enum PullOutcome {
    /// Docker could not be launched, and why.
    NotLaunched(String),
    /// The image came, after so many whole seconds; `elapsed` is the time in words.
    Pulled { seconds: u64, elapsed: String },
    /// The image did not come; what Docker printed on its error stream.
    Refused(String),
}

/// From so many seconds on, a pull is slow.
pub const SLOW_SECONDS: u64 = 10;

/// The message of a failed pull shows that the network stands in the way.
pub open spec fn names_blockade(complaint: Seq<char>) -> bool {
    occurs(complaint, "timeout"@) || occurs(complaint, "refused"@) || occurs(
        complaint,
        "no route"@,
    )
}

/// The status is what the outcome of a pull shows.
pub open spec fn shows_network(outcome: PullOutcome, status: NetworkStatus) -> bool {
    match outcome {
        PullOutcome::NotLaunched(reason) => status matches NetworkStatus::Unknown(s) && s@
            == reason@,
        PullOutcome::Pulled { seconds, elapsed } => if seconds < SLOW_SECONDS {
            status is Good
        } else {
            status matches NetworkStatus::Slow(s) && s@ == elapsed@
        },
        PullOutcome::Refused(complaint) => if names_blockade(complaint@) {
            status matches NetworkStatus::Blocked(s) && s@ == complaint@
        } else {
            status matches NetworkStatus::Unknown(s) && s@ == complaint@
        },
    }
}

/// The arguments of the `docker` command that pulls a small image from the
/// registry.
pub fn pull_args() -> (r: Vec<String>)
    ensures
        texts(r@) == seq!["pull"@, "alpine:latest"@, "--quiet"@],
{
    let mut args = no_texts();
    push_copy(&mut args, "pull");
    push_copy(&mut args, "alpine:latest");
    push_copy(&mut args, "--quiet");
    args
}

/// The arguments of the `docker` command that removes the image that was pulled.
pub fn discard_args() -> (r: Vec<String>)
    ensures
        texts(r@) == seq!["rmi"@, "alpine:latest"@],
{
    let mut args = no_texts();
    push_copy(&mut args, "rmi");
    push_copy(&mut args, "alpine:latest");
    args
}

/// How well the registry can be reached, from the outcome of a pull.
pub fn check_registry(outcome: PullOutcome) -> (r: NetworkStatus)
    ensures
        shows_network(outcome, r),
{
    match outcome {
        PullOutcome::NotLaunched(reason) => NetworkStatus::Unknown(reason),
        PullOutcome::Pulled { seconds, elapsed } => {
            if seconds < SLOW_SECONDS {
                NetworkStatus::Good
            } else {
                NetworkStatus::Slow(elapsed)
            }
        },
        PullOutcome::Refused(complaint) => {
            if contains(complaint.as_str(), "timeout") || contains(complaint.as_str(), "refused")
                || contains(complaint.as_str(), "no route") {
                NetworkStatus::Blocked(complaint)
            } else {
                NetworkStatus::Unknown(complaint)
            }
        },
    }
}

/// The public registry mirrors, the first choice first.
pub open spec fn known_mirrors() -> Seq<Seq<char>> {
    seq![
        "https://docker.mirrors.ustc.edu.cn"@,
        "https://mirror.ccs.tencentyun.com"@,
        "https://2a59f68c.m.daocloud.io"@,
        "https://registry.docker-cn.com"@,
        "https://dockerhub.timeweb.cloud"@,
    ]
}

/// The public registry mirrors, the first choice first.
pub fn registry_mirrors() -> (r: Vec<String>)
    ensures
        texts(r@) == known_mirrors(),
{
    let mut mirrors = no_texts();
    push_copy(&mut mirrors, "https://docker.mirrors.ustc.edu.cn");
    push_copy(&mut mirrors, "https://mirror.ccs.tencentyun.com");
    push_copy(&mut mirrors, "https://2a59f68c.m.daocloud.io");
    push_copy(&mut mirrors, "https://registry.docker-cn.com");
    push_copy(&mut mirrors, "https://dockerhub.timeweb.cloud");
    mirrors
}

/// What the search for a working mirror does next.
#[derive(Clone, Debug)]
pub enum MirrorSearch {
    /// Find out whether the mirror at this place of the list works.
    Test { index: usize, url: String },
    /// This mirror works.
    Found(String),
    /// None of the mirrors works.
    Exhausted,
}

/// The step tests the known mirror at `index`, or ends the search where the
/// list has no such place.
pub open spec fn tests_mirror(step: MirrorSearch, at: int) -> bool {
    if 0 <= at < known_mirrors().len() {
        step matches MirrorSearch::Test { index, url } && index == at && url@ == known_mirrors()[at]
    } else {
        step is Exhausted
    }
}

/// What follows a step of the search once it is known whether the mirror works.
pub open spec fn search_goes_on(step: MirrorSearch, works: bool, next: MirrorSearch) -> bool {
    match step {
        MirrorSearch::Test { index, url } => if works {
            next matches MirrorSearch::Found(found) && found@ == url@
        } else {
            tests_mirror(next, index + 1)
        },
        _ => next == step,
    }
}

/// The first known mirror from place `at` on that works.
pub open spec fn first_working(works: spec_fn(Seq<char>) -> bool, at: int) -> Option<Seq<char>>
    decreases known_mirrors().len() - at,
{
    if at < 0 || at >= known_mirrors().len() {
        None
    } else if works(known_mirrors()[at]) {
        Some(known_mirrors()[at])
    } else {
        first_working(works, at + 1)
    }
}

/// The mirror that the search comes to from a step on.
pub open spec fn search_outcome(
    step: MirrorSearch,
    works: spec_fn(Seq<char>) -> bool,
) -> Option<Seq<char>> {
    match step {
        MirrorSearch::Test { index, url } => first_working(works, index as int),
        MirrorSearch::Found(url) => Some(url@),
        MirrorSearch::Exhausted => None,
    }
}

/// A search: it starts at the first known mirror, and every test of a mirror is
/// answered with what `works` tells of it.
pub open spec fn is_search(trace: Seq<MirrorSearch>, works: spec_fn(Seq<char>) -> bool) -> bool {
    &&& trace.len() > 0
    &&& tests_mirror(trace[0], 0)
    &&& forall|i: int|
        #![trigger trace[i]]
        0 <= i < trace.len() - 1 ==> trace[i] is Test && search_goes_on(
            trace[i],
            works(trace[i]->url@),
            trace[i + 1],
        )
}

proof fn search_keeps_outcome(trace: Seq<MirrorSearch>, works: spec_fn(Seq<char>) -> bool, i: int)
    requires
        is_search(trace, works),
        0 <= i < trace.len(),
    ensures
        search_outcome(trace[i], works) == first_working(works, 0),
        trace[i] matches MirrorSearch::Test { index, .. } ==> tests_mirror(trace[i], index as int),
    decreases i,
{
    reveal_with_fuel(first_working, 2);
    if i > 0 {
        search_keeps_outcome(trace, works, i - 1);
        assert(search_goes_on(trace[i - 1], works(trace[i - 1]->url@), trace[i - 1 + 1]));
    }
}

/// A search that is over has found the first known mirror that works, or none
/// where none does.
pub proof fn search_finds_first_working(
    trace: Seq<MirrorSearch>,
    works: spec_fn(Seq<char>) -> bool,
)
    requires
        is_search(trace, works),
        !(trace.last() is Test),
    ensures
        match first_working(works, 0) {
            Some(url) => trace.last() matches MirrorSearch::Found(found) && found@ == url,
            None => trace.last() is Exhausted,
        },
{
    search_keeps_outcome(trace, works, trace.len() - 1);
}

/// What `first_working` gives from the first place on is a known mirror that
/// works, and no mirror before it does; it gives none only where no mirror works.
pub proof fn first_working_is_first(works: spec_fn(Seq<char>) -> bool, at: int)
    requires
        0 <= at <= known_mirrors().len(),
    ensures
        match first_working(works, at) {
            Some(url) => works(url) && exists|i: int|
                at <= i < known_mirrors().len() && url == #[trigger] known_mirrors()[i] && (
                forall|j: int| at <= j < i ==> !works(#[trigger] known_mirrors()[j])),
            None => forall|j: int|
                at <= j < known_mirrors().len() ==> !works(#[trigger] known_mirrors()[j]),
        },
    decreases known_mirrors().len() - at,
{
    if at < known_mirrors().len() && !works(known_mirrors()[at]) {
        first_working_is_first(works, at + 1);
    }
}

/// The step of the search that is about the mirror at `index`.
fn test_at(index: usize) -> (r: MirrorSearch)
    ensures
        tests_mirror(r, index as int),
{
    let mirrors = registry_mirrors();
    assert(texts(mirrors@).len() == 5);
    if index < mirrors.len() {
        assert(texts(mirrors@)[index as int] == mirrors@[index as int]@);
        MirrorSearch::Test { index, url: mirrors[index].clone() }
    } else {
        MirrorSearch::Exhausted
    }
}

/// The first step of the search for a working mirror.
pub fn detect_best_mirror() -> (r: MirrorSearch)
    ensures
        tests_mirror(r, 0),
{
    test_at(0)
}

/// The step of the search after a mirror was tested: it ends at the first
/// mirror that works.
pub fn after_mirror_test(step: MirrorSearch, works: bool) -> (r: MirrorSearch)
    ensures
        search_goes_on(step, works, r),
{
    match step {
        MirrorSearch::Test { index, url } => {
            if works {
                MirrorSearch::Found(url)
            } else if index == usize::MAX {
                MirrorSearch::Exhausted
            } else {
                test_at(index + 1)
            }
        },
        other => other,
    }
}

/// Where a registry lists its images.
pub open spec fn catalog_view(url: Seq<char>) -> Seq<char> {
    without_trailing(url, '/') + "/v2/_catalog"@
}

/// Where a registry lists its images.
pub fn catalog_url(url: &str) -> (r: String)
    ensures
        r@ == catalog_view(url@),
{
    trim_end_matches(url, '/').concat("/v2/_catalog")
}

/// The arguments of the `curl` command that prints the HTTP status of a mirror.
pub open spec fn curl_probe_view(url: Seq<char>) -> Seq<Seq<char>> {
    seq![
        "-s"@,
        "-o"@,
        "/dev/null"@,
        "-w"@,
        "%{http_code}"@,
        "--connect-timeout"@,
        "5"@,
        catalog_view(url),
    ]
}

/// The arguments of the `curl` command that prints the HTTP status of a mirror.
pub fn curl_probe(url: &str) -> (r: Vec<String>)
    ensures
        texts(r@) == curl_probe_view(url@),
{
    let mut args = no_texts();
    push_copy(&mut args, "-s");
    push_copy(&mut args, "-o");
    push_copy(&mut args, "/dev/null");
    push_copy(&mut args, "-w");
    push_copy(&mut args, "%{http_code}");
    push_copy(&mut args, "--connect-timeout");
    push_copy(&mut args, "5");
    push_text(&mut args, catalog_url(url));
    args
}

/// The HTTP status that `curl` printed is that of a registry: it answers, or it
/// asks for a login.
pub open spec fn curl_shows_registry(output: Seq<char>) -> bool {
    trimmed(output) == "200"@ || trimmed(output) == "401"@
}

/// Whether the HTTP status that `curl` printed is that of a registry: it
/// answers, or it asks for a login.
pub fn curl_found_registry(output: &str) -> (r: bool)
    ensures
        r == curl_shows_registry(output@),
{
    let code = trim(output);
    same(code.as_str(), "200") || same(code.as_str(), "401")
}

/// The arguments of the PowerShell command that tests a mirror.
pub open spec fn powershell_probe_view(url: Seq<char>) -> Seq<Seq<char>> {
    seq![
        "-NoProfile"@,
        "-Command"@,
        "try { (Invoke-WebRequest -Uri '"@ + catalog_view(url)
            + "' -TimeoutSec 5 -UseBasicParsing).StatusCode -eq 200 } catch { $false }"@,
    ]
}

/// The arguments of the PowerShell command that tests a mirror.
pub fn powershell_probe(url: &str) -> (r: Vec<String>)
    ensures
        texts(r@) == powershell_probe_view(url@),
{
    let mut args = no_texts();
    push_copy(&mut args, "-NoProfile");
    push_copy(&mut args, "-Command");
    push_text(
        &mut args,
        "try { (Invoke-WebRequest -Uri '".to_owned().concat(catalog_url(url).as_str()).concat(
            "' -TimeoutSec 5 -UseBasicParsing).StatusCode -eq 200 } catch { $false }",
        ),
    );
    args
}

/// The PowerShell command says that the mirror answers.
pub open spec fn powershell_shows_registry(output: Seq<char>) -> bool {
    trimmed(output) == "True"@
}

/// Whether the PowerShell command says that the mirror answers.
pub fn powershell_found_registry(output: &str) -> (r: bool)
    ensures
        r == powershell_shows_registry(output@),
{
    same(trim(output).as_str(), "True")
}

/// A mirror is named by a web address.
pub open spec fn is_web_address(url: Seq<char>) -> bool {
    occurs_at(url, "http://"@, 0) || occurs_at(url, "https://"@, 0)
}

/// Whether a text can name a mirror: it begins like a web address.
pub fn is_mirror_url(url: &str) -> (r: bool)
    ensures
        r == is_web_address(url@),
{
    starts_with(url, "http://") || starts_with(url, "https://")
}

/// The member of Docker's configuration that lists the registry mirrors.
pub const MIRRORS_KEY: &'static str = "registry-mirrors";

/// The configuration that a file holds. A missing file and a file that is no
/// JSON document count as an empty configuration.
pub open spec fn config_in(existing: Option<Seq<char>>) -> JsonView {
    match existing {
        Some(text) => match parsed_json(text) {
            Ok(doc) => doc,
            Err(_) => JsonView::Object(Map::empty()),
        },
        None => JsonView::Object(Map::empty()),
    }
}

/// A configuration that can have members: an object, or null, which stands for
/// an empty one.
pub open spec fn takes_members(doc: JsonView) -> bool {
    doc is Object || doc is Null
}

/// The configuration with the given mirror and no other.
pub open spec fn with_mirror(doc: JsonView, url: Seq<char>) -> JsonView {
    JsonView::Object(members_of(doc).insert(MIRRORS_KEY@, text_array_view(seq![url])))
}

/// The configuration without mirrors.
pub open spec fn without_mirrors(doc: JsonView) -> JsonView {
    match doc {
        JsonView::Object(m) => JsonView::Object(m.remove(MIRRORS_KEY@)),
        other => other,
    }
}

/// The first mirror that a configuration lists.
pub open spec fn mirror_of(doc: JsonView) -> Option<Seq<char>> {
    match doc {
        JsonView::Object(m) => if m.contains_key(MIRRORS_KEY@) {
            match m[MIRRORS_KEY@] {
                JsonView::Array(items) => if items.len() > 0 {
                    match items[0] {
                        JsonView::Text(url) => Some(url),
                        _ => None,
                    }
                } else {
                    None
                },
                _ => None,
            }
        } else {
            None
        },
        _ => None,
    }
}

/// The first mirror that the configuration in a text lists.
pub open spec fn mirror_in(text: Seq<char>) -> Option<Seq<char>> {
    match parsed_json(text) {
        Ok(doc) => mirror_of(doc),
        Err(_) => None,
    }
}

/// A text holds the members of a configuration other than the mirrors, but for
/// the last digits of floating-point numbers.
pub open spec fn keeps_others(doc: JsonView, text: Seq<char>) -> bool {
    let before = members_of(doc).remove(MIRRORS_KEY@);
    parsed_json(text) matches Ok(back) && {
        let after = members_of(back).remove(MIRRORS_KEY@);
        &&& after.dom() == before.dom()
        &&& forall|k: Seq<char>| #[trigger]
            before.contains_key(k) ==> alike(before[k], after[k], (depth_limit() - 1) as nat)
    }
}

/// Lists the given mirror, and no other, in a configuration.
pub fn put_mirror(doc: &mut serde_json::Value, url: &str)
    requires
        takes_members(json_view(*old(doc))),
    ensures
        json_view(*final(doc)) == with_mirror(json_view(*old(doc)), url@),
{
    let mut mirrors = no_texts();
    push_copy(&mut mirrors, url);
    set_member(doc, MIRRORS_KEY, text_array(mirrors));
}

proof fn mirror_nests(doc: JsonView, url: Seq<char>)
    requires
        nests_at_most(doc, depth_limit()),
    ensures
        nests_at_most(with_mirror(doc, url), depth_limit()),
        nests_at_most(without_mirrors(doc), depth_limit()),
{
    reveal_with_fuel(nests_at_most, 3);
}

proof fn mirror_reads_back(doc: JsonView, url: Seq<char>, back: JsonView)
    requires
        alike(with_mirror(doc, url), back, depth_limit()),
    ensures
        mirror_of(back) == Some(url),
{
    reveal_with_fuel(alike, 3);
    let m = members_of(doc).insert(MIRRORS_KEY@, text_array_view(seq![url]));
    assert(m.contains_key(MIRRORS_KEY@));
    let items = m[MIRRORS_KEY@]->Array_0;
    assert(items[0] == JsonView::Text(url));
    assert(back->Object_0.contains_key(MIRRORS_KEY@));
    assert(alike(items[0], back->Object_0[MIRRORS_KEY@]->Array_0[0], 125));
}

/// The text of a Docker configuration that lists the given mirror, made from
/// what the configuration file holds. A configuration that can have no members
/// gives `None`.
pub fn set_registry_mirror(existing: Option<&str>, url: &str) -> (r: Option<String>)
    ensures
        ({
            let doc = config_in(
                match existing {
                    Some(text) => Some(text@),
                    None => None,
                },
            );
            match r {
                Some(text) => {
                    &&& takes_members(doc)
                    &&& text@ == pretty_text(with_mirror(doc, url@))
                    &&& mirror_in(text@) == Some(url@)
                    &&& keeps_others(doc, text@)
                },
                None => !takes_members(doc),
            }
        }),
{
    let mut doc = match existing {
        Some(text) => match parse(text) {
            Ok(doc) => doc,
            Err(_) => empty_object(),
        },
        None => empty_object(),
    };
    let ghost before = json_view(doc);
    assert(nests_at_most(before, depth_limit()));
    if !doc.is_object() && !doc.is_null() {
        return None;
    }
    put_mirror(&mut doc, url);
    proof {
        mirror_nests(before, url@);
    }
    match pretty(&doc) {
        Ok(text) => {
            proof {
                let back = parsed_json(text@)->Ok_0;
                mirror_reads_back(before, url@, back);
                assert(members_of(with_mirror(before, url@)).remove(MIRRORS_KEY@)
                    =~= members_of(before).remove(MIRRORS_KEY@));
                others_kept(before, with_mirror(before, url@), back);
            }
            Some(text)
        },
        Err(_) => None,
    }
}

proof fn others_kept(doc: JsonView, changed: JsonView, back: JsonView)
    requires
        alike(changed, back, depth_limit()),
        doc is Object ==> changed is Object,
        members_of(changed).remove(MIRRORS_KEY@) == members_of(doc).remove(MIRRORS_KEY@),
    ensures
        ({
            let before = members_of(doc).remove(MIRRORS_KEY@);
            let after = members_of(back).remove(MIRRORS_KEY@);
            &&& after.dom() == before.dom()
            &&& forall|k: Seq<char>| #[trigger]
                before.contains_key(k) ==> alike(before[k], after[k], (depth_limit() - 1) as nat)
        }),
{
    reveal_with_fuel(alike, 2);
    let before = members_of(changed).remove(MIRRORS_KEY@);
    let after = members_of(back).remove(MIRRORS_KEY@);
    assert(after.dom() =~= before.dom());
    assert forall|k: Seq<char>| #[trigger] before.contains_key(k) implies alike(
        before[k],
        after[k],
        (depth_limit() - 1) as nat,
    ) by {
        assert(members_of(changed).contains_key(k));
    }
}

/// The text of a Docker configuration without mirrors, made from what the
/// configuration file holds; or what is wrong with the file.
pub fn remove_registry_mirror(existing: &str) -> (r: Result<String, String>)
    ensures
        match (r, parsed_json(existing@)) {
            (Ok(text), Ok(doc)) => {
                &&& text@ == pretty_text(without_mirrors(doc))
                &&& mirror_in(text@) is None
                &&& keeps_others(doc, text@)
            },
            (Err(complaint), Err(reason)) => complaint@ == reason,
            _ => false,
        },
{
    match parse(existing) {
        Ok(parsed) => {
            let mut doc = parsed;
            let ghost before = json_view(doc);
            remove_member(&mut doc, MIRRORS_KEY);
            proof {
                mirror_nests(before, seq![]);
            }
            match pretty(&doc) {
                Ok(text) => {
                    proof {
                        let back = parsed_json(text@)->Ok_0;
                        reveal_with_fuel(alike, 2);
                        assert(members_of(without_mirrors(before)).remove(MIRRORS_KEY@)
                            =~= members_of(before).remove(MIRRORS_KEY@));
                        others_kept(before, without_mirrors(before), back);
                    }
                    Ok(text)
                },
                Err(error) => Err(message(&error)),
            }
        },
        Err(error) => Err(message(&error)),
    }
}

/// The first mirror that a configuration lists.
pub fn first_mirror(doc: &serde_json::Value) -> (r: Option<String>)
    ensures
        match (r, mirror_of(json_view(*doc))) {
            (Some(url), Some(listed)) => url@ == listed,
            (None, None) => true,
            _ => false,
        },
{
    let listed = match member(doc, MIRRORS_KEY) {
        Some(listed) => listed,
        None => {
            return None;
        },
    };
    match listed.as_array() {
        Some(items) => {
            if items.len() == 0 {
                return None;
            }
            match items[0].as_str() {
                Some(url) => Some(url.to_owned()),
                None => None,
            }
        },
        None => None,
    }
}

/// The first mirror that Docker's configuration lists, from what the
/// configuration file holds where there is one.
pub fn get_registry_mirror(existing: Option<&str>) -> (r: Option<String>)
    ensures
        match existing {
            Some(text) => match (r, mirror_in(text@)) {
                (Some(url), Some(listed)) => url@ == listed,
                (None, None) => true,
                _ => false,
            },
            None => r is None,
        },
{
    match existing {
        Some(text) => match parse(text) {
            Ok(doc) => first_mirror(&doc),
            Err(_) => None,
        },
        None => None,
    }
}

/// The registry is well reached exactly where the image came in less than ten
/// seconds, slowly where it took longer, and not at all where the complaint speaks
/// of a timeout, a refusal or a missing route; in all other cases it is unknown.
/// The status carries the time, the complaint or the reason as it is.
pub proof fn network_is_read_from_the_pull(outcome: PullOutcome, status: NetworkStatus)
    requires
        shows_network(outcome, status),
    ensures
        status is Good <==> (outcome matches PullOutcome::Pulled { seconds, .. } && seconds < 10),
        status is Slow <==> (outcome matches PullOutcome::Pulled { seconds, .. } && seconds >= 10),
        status is Blocked <==> (outcome matches PullOutcome::Refused(complaint) && (occurs(
            complaint@,
            "timeout"@,
        ) || occurs(complaint@, "refused"@) || occurs(complaint@, "no route"@))),
        status matches NetworkStatus::Slow(s) ==> s@ == outcome->elapsed@,
        status matches NetworkStatus::Blocked(s) ==> s@ == outcome->Refused_0@,
        status matches NetworkStatus::Unknown(s) ==> (outcome matches PullOutcome::Refused(
            complaint,
        ) && s@ == complaint@) || (outcome matches PullOutcome::NotLaunched(reason) && s@
            == reason@),
{
}

/// A complaint names a blockade wherever one of its words stands.
pub proof fn blockades_are_named_by_words(front: Seq<char>, back: Seq<char>, complaint: Seq<char>)
    ensures
        names_blockade(front + "timeout"@ + back),
        names_blockade(front + "refused"@ + back),
        names_blockade(front + "no route"@ + back),
        !occurs(complaint, "timeout"@) && !occurs(complaint, "refused"@) && !occurs(
            complaint,
            "no route"@,
        ) ==> !names_blockade(complaint),
{
    middle_occurs(front, "timeout"@, back);
    middle_occurs(front, "refused"@, back);
    middle_occurs(front, "no route"@, back);
}

/// The catalogue of a registry lies below its address, whether the address ends in
/// slashes or not, and nothing else of the address is lost.
pub proof fn catalog_lies_below_the_address(url: Seq<char>)
    ensures
        catalog_view(url.push('/')) == catalog_view(url),
        url.len() == 0 || url.last() != '/' ==> catalog_view(url) == url + "/v2/_catalog"@,
{
    reveal_with_fuel(without_trailing, 2);
    assert(url.push('/').drop_last() =~= url);
}

/// Both probes ask for the catalogue of the mirror, and for no other address.
pub proof fn probes_ask_for_the_catalog(url: Seq<char>)
    ensures
        curl_probe_view(url).len() == 8,
        curl_probe_view(url).last() == catalog_view(url),
        curl_probe_view(url)[4] == "%{http_code}"@,
        curl_probe_view(url)[3] == "-w"@,
        curl_probe_view(url)[5] == "--connect-timeout"@,
        curl_probe_view(url)[6] == "5"@,
        powershell_probe_view(url).len() == 3,
        powershell_probe_view(url)[1] == "-Command"@,
        occurs(powershell_probe_view(url)[2], "-Uri '"@ + catalog_view(url) + "' -TimeoutSec 5"@),
{
    let open = "try { (Invoke-WebRequest -Uri '"@;
    let close = "' -TimeoutSec 5 -UseBasicParsing).StatusCode -eq 200 } catch { $false }"@;
    let front = "try { (Invoke-WebRequest "@;
    let back = " -UseBasicParsing).StatusCode -eq 200 } catch { $false }"@;
    reveal_strlit("try { (Invoke-WebRequest -Uri '");
    reveal_strlit("try { (Invoke-WebRequest ");
    reveal_strlit("-Uri '");
    reveal_strlit("' -TimeoutSec 5 -UseBasicParsing).StatusCode -eq 200 } catch { $false }");
    reveal_strlit("' -TimeoutSec 5");
    reveal_strlit(" -UseBasicParsing).StatusCode -eq 200 } catch { $false }");
    assert(open =~= front + "-Uri '"@);
    assert(close =~= "' -TimeoutSec 5"@ + back);
    let part = "-Uri '"@ + catalog_view(url) + "' -TimeoutSec 5"@;
    middle_occurs(front, part, back);
    assert(powershell_probe_view(url)[2] =~= front + part + back);
}

/// A mirror is named by every address that begins with `http://` or `https://`,
/// and by no other text.
pub proof fn web_addresses_begin_with_their_scheme(url: Seq<char>, rest: Seq<char>)
    ensures
        is_web_address("http://"@ + rest),
        is_web_address("https://"@ + rest),
        is_web_address(url) ==> exists|tail: Seq<char>|
            url == #[trigger] ("http://"@ + tail) || url == "https://"@ + tail,
{
    let plain = "http://"@ + rest;
    let safe = "https://"@ + rest;
    assert(plain.subrange(0, "http://"@.len() as int) =~= "http://"@);
    assert(safe.subrange(0, "https://"@.len() as int) =~= "https://"@);
    assert(occurs_at(plain, "http://"@, 0));
    assert(occurs_at(safe, "https://"@, 0));
    if occurs_at(url, "http://"@, 0) {
        let tail = url.skip("http://"@.len() as int);
        assert(url.subrange(0, "http://"@.len() as int) == "http://"@);
        assert(url =~= "http://"@ + tail);
    } else if is_web_address(url) {
        let tail = url.skip("https://"@.len() as int);
        assert(url.subrange(0, "https://"@.len() as int) == "https://"@);
        assert(url =~= "https://"@ + tail);
        assert("http://"@ + tail == "http://"@ + tail);
    }
}

/// Every known mirror is named by a web address.
pub proof fn known_mirrors_are_web_addresses(i: int)
    requires
        0 <= i < known_mirrors().len(),
    ensures
        known_mirrors().len() == 5,
        is_web_address(known_mirrors()[i]),
{
    reveal_strlit("https://");
    reveal_strlit("https://docker.mirrors.ustc.edu.cn");
    reveal_strlit("https://mirror.ccs.tencentyun.com");
    reveal_strlit("https://2a59f68c.m.daocloud.io");
    reveal_strlit("https://registry.docker-cn.com");
    reveal_strlit("https://dockerhub.timeweb.cloud");
    let url = known_mirrors()[i];
    assert(url.len() >= 8);
    assert(url.subrange(0, 8) =~= "https://"@);
    assert(occurs_at(url, "https://"@, 0));
}

/// The mirror of a configuration is the first that it lists, whatever follows it
/// in the list and whatever other members there are.
pub proof fn mirror_is_the_first_listed(
    members: Map<Seq<char>, JsonView>,
    url: Seq<char>,
    others: Seq<JsonView>,
)
    ensures
        mirror_of(
            JsonView::Object(
                members.insert(
                    MIRRORS_KEY@,
                    JsonView::Array(seq![JsonView::Text(url)] + others),
                ),
            ),
        ) == Some(url),
        MIRRORS_KEY@ == "registry-mirrors"@,
{
    let items = seq![JsonView::Text(url)] + others;
    assert(items[0] == JsonView::Text(url));
}

/// A configuration has a mirror only where it is an object whose list of mirrors
/// begins with a text.
pub proof fn mirrors_are_listed(doc: JsonView)
    ensures
        mirror_of(doc) is Some <==> (doc matches JsonView::Object(m) && m.contains_key(MIRRORS_KEY@)
            && (m[MIRRORS_KEY@] matches JsonView::Array(items) && items.len() > 0
            && items[0] is Text)),
{
}

/// The mirror that is set is the one that is read, and the only one that is
/// listed; every other member stays as it is. The mirror that was set last counts.
pub proof fn set_mirror_is_read(doc: JsonView, url: Seq<char>, other: Seq<char>, key: Seq<char>)
    requires
        takes_members(doc),
    ensures
        mirror_of(with_mirror(doc, url)) == Some(url),
        members_of(with_mirror(doc, url))[MIRRORS_KEY@]->Array_0.len() == 1,
        key != MIRRORS_KEY@ ==> members_of(with_mirror(doc, url)).contains_key(key)
            == members_of(doc).contains_key(key),
        key != MIRRORS_KEY@ && members_of(doc).contains_key(key) ==> members_of(
            with_mirror(doc, url),
        )[key] == members_of(doc)[key],
        with_mirror(with_mirror(doc, url), other) == with_mirror(doc, other),
        takes_members(with_mirror(doc, url)),
{
    let items = seq![url].map_values(|t: Seq<char>| JsonView::Text(t));
    assert(items[0] == JsonView::Text(url));
    assert(members_of(with_mirror(with_mirror(doc, url), other)) =~= members_of(
        with_mirror(doc, other),
    ));
}

/// After the mirrors are removed none is read, and every other member stays as it
/// is; to remove a mirror that was set is to remove what was there before. What is
/// no object stays as it is.
pub proof fn removed_mirrors_are_gone(doc: JsonView, url: Seq<char>, key: Seq<char>)
    ensures
        mirror_of(without_mirrors(doc)) is None,
        !members_of(without_mirrors(doc)).contains_key(MIRRORS_KEY@),
        key != MIRRORS_KEY@ ==> members_of(without_mirrors(doc)).contains_key(key)
            == members_of(doc).contains_key(key),
        key != MIRRORS_KEY@ && members_of(doc).contains_key(key) ==> members_of(
            without_mirrors(doc),
        )[key] == members_of(doc)[key],
        doc is Object ==> without_mirrors(with_mirror(doc, url)) == without_mirrors(doc),
        !(doc is Object) ==> without_mirrors(doc) == doc,
{
    if doc is Object {
        assert(members_of(without_mirrors(with_mirror(doc, url))) =~= members_of(
            without_mirrors(doc),
        ));
    }
}

/// A file that holds a JSON document holds that configuration; a missing file, and
/// one that holds none, count as an empty one, to which members can be added.
pub proof fn files_hold_their_configuration(text: Seq<char>)
    ensures
        parsed_json(text) matches Ok(doc) ==> config_in(Some(text)) == doc,
        parsed_json(text) is Err ==> config_in(Some(text)) == JsonView::Object(Map::empty()),
        config_in(None) == JsonView::Object(Map::empty()),
        takes_members(config_in(None)),
        parsed_json(text) is Err ==> takes_members(config_in(Some(text))) && mirror_in(text)
            is None,
        parsed_json(text) matches Ok(doc) ==> mirror_in(text) == mirror_of(doc),
{
}

/// Members can be added to an object and to null, and to nothing else.
pub proof fn objects_take_members(doc: JsonView)
    ensures
        takes_members(doc) <==> doc is Object || doc is Null,
        doc matches JsonView::Object(m) ==> members_of(doc) == m,
        !(doc is Object) ==> members_of(doc) == Map::<Seq<char>, JsonView>::empty(),
{
}

/// A text that keeps the other members of a configuration is a document with the
/// same other members, each of the same kind and with the same text, number or
/// truth value.
pub proof fn kept_members_are_the_same(doc: JsonView, text: Seq<char>, key: Seq<char>)
    requires
        keeps_others(doc, text),
        key != MIRRORS_KEY@,
    ensures
        parsed_json(text) is Ok,
        members_of(parsed_json(text)->Ok_0).contains_key(key) == members_of(doc).contains_key(key),
        members_of(doc).contains_key(key) ==> {
            let before = members_of(doc)[key];
            let after = members_of(parsed_json(text)->Ok_0)[key];
            &&& before is Float == after is Float
            &&& before is Array == after is Array
            &&& before is Object == after is Object
            &&& !(before is Float) && !(before is Array) && !(before is Object) ==> after == before
        },
{
    let before = members_of(doc).remove(MIRRORS_KEY@);
    let after = members_of(parsed_json(text)->Ok_0).remove(MIRRORS_KEY@);
    assert(after.dom().contains(key) == before.dom().contains(key));
    if members_of(doc).contains_key(key) {
        assert(before.contains_key(key));
        assert(alike(before[key], after[key], (depth_limit() - 1) as nat));
    }
}

/// A search tests the known mirrors one behind the other, from the first on, and
/// stops at the one that works.
pub proof fn search_tests_in_order(step: MirrorSearch, works: bool, next: MirrorSearch)
    requires
        search_goes_on(step, works, next),
    ensures
        step is Test && works ==> next is Found && next->Found_0@ == step->url@,
        step is Test && !works && step->index + 1 < 5 ==> next is Test && next->index == step->index
            + 1 && next->url@ == known_mirrors()[step->index + 1],
        step is Test && !works && step->index + 1 >= 5 ==> next is Exhausted,
        !(step is Test) ==> next == step,
{
}

/// A mirror works where its status is 200 or 401, or where PowerShell says `True`,
/// whatever white space stands around it, and nowhere else.
pub proof fn mirrors_work_where_they_answer(output: Seq<char>)
    ensures
        curl_shows_registry(output) ==> trimmed(output) == "200"@ || trimmed(output) == "401"@,
        trimmed(output) == "200"@ ==> curl_shows_registry(output),
        trimmed(output) == "401"@ ==> curl_shows_registry(output),
        powershell_shows_registry(output) <==> trimmed(output) == "True"@,
{
}

} // verus!
