//! The content of a SARIF report on a scan: the tool, its rules, and one
//! result for each vulnerable check. The report is held here as plain values;
//! writing it out in the SARIF format is left to the caller.

use vstd::prelude::*;
use vstd::string::*;
use crate::model::{CheckResult, CheckResultView, ScanResults};
use crate::text::{lowercase, same_text, to_lowercase};

verus! {

/// The version of the SARIF format that the report follows.
pub const SARIF_VERSION: &'static str = "2.1.0";

/// The name under which the tool reports.
pub const TOOL_NAME: &'static str = "SmuggleX";

/// Where the tool is described.
pub const TOOL_URI: &'static str = "https://github.com/hahwul/smugglex";

/// A rule of the tool: one kind of vulnerability that it reports.
#[derive(Debug, Clone)]
pub struct Rule {
    /// The name of the check category.
    pub id: String,
    /// A title for the rule.
    pub name: String,
    /// What the vulnerability consists of; the short description is the name,
    /// the full description and the help are this text.
    pub help_text: String,
}

/// The mathematical content of a `Rule`.
pub struct RuleView {
    pub id: Seq<char>,
    pub name: Seq<char>,
    pub help_text: Seq<char>,
}

impl View for Rule {
    type V = RuleView;

    open spec fn view(&self) -> RuleView {
        RuleView { id: self.id@, name: self.name@, help_text: self.help_text@ }
    }
}

/// The views of the rules, in order.
pub open spec fn rule_views(rules: Seq<Rule>) -> Seq<RuleView> {
    Seq::new(rules.len(), |i: int| rules[i]@)
}

/// The help text for a rule, from its name in lower case. A category can be
/// named with a hyphen or with a full stop; any other name gets a general text.
pub open spec fn help_text_of(lowered: Seq<char>) -> Seq<char> {
    if lowered == "cl.te"@ || lowered == "cl-te"@ {
        "The front-end server uses Content-Length header while the back-end uses Transfer-Encoding. This mismatch can cause HTTP request smuggling vulnerabilities."@
    } else if lowered == "te.cl"@ || lowered == "te-cl"@ {
        "The front-end server uses Transfer-Encoding header while the back-end uses Content-Length. This mismatch can cause HTTP request smuggling vulnerabilities."@
    } else if lowered == "te.te"@ || lowered == "te-te"@ {
        "Both servers support Transfer-Encoding but one can be tricked with obfuscation. This can lead to HTTP request smuggling vulnerabilities."@
    } else if lowered == "h2c"@ {
        "Exploits HTTP/1.1 to HTTP/2 upgrade mechanisms. This can lead to HTTP request smuggling through protocol confusion."@
    } else if lowered == "h2"@ {
        "Exploits HTTP/2 protocol-level features during protocol translation. This can lead to HTTP request smuggling in HTTP/2 environments."@
    } else {
        "HTTP Request Smuggling vulnerability detected."@
    }
}

/// Picks the help text for a rule whose name is already in lower case.
pub fn help_text_for(lowered: &str) -> (text: &'static str)
    ensures
        text@ == help_text_of(lowered@),
{
    if same_text(lowered, "cl.te") || same_text(lowered, "cl-te") {
        "The front-end server uses Content-Length header while the back-end uses Transfer-Encoding. This mismatch can cause HTTP request smuggling vulnerabilities."
    } else if same_text(lowered, "te.cl") || same_text(lowered, "te-cl") {
        "The front-end server uses Transfer-Encoding header while the back-end uses Content-Length. This mismatch can cause HTTP request smuggling vulnerabilities."
    } else if same_text(lowered, "te.te") || same_text(lowered, "te-te") {
        "Both servers support Transfer-Encoding but one can be tricked with obfuscation. This can lead to HTTP request smuggling vulnerabilities."
    } else if same_text(lowered, "h2c") {
        "Exploits HTTP/1.1 to HTTP/2 upgrade mechanisms. This can lead to HTTP request smuggling through protocol confusion."
    } else if same_text(lowered, "h2") {
        "Exploits HTTP/2 protocol-level features during protocol translation. This can lead to HTTP request smuggling in HTTP/2 environments."
    } else {
        "HTTP Request Smuggling vulnerability detected."
    }
}

/// The rule for a category, whatever the case of its name.
pub open spec fn rule_of(id: Seq<char>, name: Seq<char>) -> RuleView {
    RuleView { id, name, help_text: help_text_of(lowercase(id)) }
}

/// Makes the rule for a category.
pub fn create_rule(id: &str, name: &str) -> (rule: Rule)
    ensures
        rule@ == rule_of(id@, name@),
{
    let lowered = to_lowercase(id);
    Rule {
        id: String::from_str(id),
        name: String::from_str(name),
        help_text: String::from_str(help_text_for(lowered.as_str())),
    }
}

/// The rules of the tool: one for each check category.
pub open spec fn all_rules() -> Seq<RuleView> {
    seq![
        rule_of("cl-te"@, "Content-Length vs Transfer-Encoding Smuggling"@),
        rule_of("te-cl"@, "Transfer-Encoding vs Content-Length Smuggling"@),
        rule_of("te-te"@, "Transfer-Encoding Obfuscation Smuggling"@),
        rule_of("h2c"@, "HTTP/2 Cleartext Smuggling"@),
        rule_of("h2"@, "HTTP/2 Protocol Smuggling"@),
    ]
}

/// Makes the rules of the tool.
pub fn create_rules() -> (rules: Vec<Rule>)
    ensures
        rule_views(rules@) == all_rules(),
{
    let mut rules: Vec<Rule> = Vec::new();
    rules.push(create_rule("cl-te", "Content-Length vs Transfer-Encoding Smuggling"));
    rules.push(create_rule("te-cl", "Transfer-Encoding vs Content-Length Smuggling"));
    rules.push(create_rule("te-te", "Transfer-Encoding Obfuscation Smuggling"));
    rules.push(create_rule("h2c", "HTTP/2 Cleartext Smuggling"));
    rules.push(create_rule("h2", "HTTP/2 Protocol Smuggling"));
    assert(rule_views(rules@) =~= all_rules());
    rules
}

/// The message of a result: the category, and the status of the attack
/// response where there is one.
pub open spec fn message_of(check: CheckResultView) -> Seq<char> {
    "HTTP Request Smuggling vulnerability detected using "@ + check.check_type + " attack. "@
        + match check.attack_status {
        Some(status) => status,
        None => "Connection issue detected."@,
    }
}

/// Makes the message of a result.
pub fn create_result_message(check: &CheckResult) -> (message: String)
    ensures
        message@ == message_of(check@),
{
    let mut message = String::from_str("HTTP Request Smuggling vulnerability detected using ");
    message.append(check.check_type.as_str());
    message.append(" attack. ");
    match &check.attack_status {
        Some(status) => message.append(status.as_str()),
        None => message.append("Connection issue detected."),
    }
    message
}

/// The value of a property of a result.
#[derive(Debug, Clone)]
pub enum PropertyValue {
    Text(String),
    Number(u64),
}

/// A named property of a result.
#[derive(Debug, Clone)]
pub struct Property {
    pub name: String,
    pub value: PropertyValue,
}

/// The mathematical content of a `PropertyValue`.
pub enum ValueView {
    Text(Seq<char>),
    Number(nat),
}

/// The mathematical content of a `Property`.
pub struct PropertyView {
    pub name: Seq<char>,
    pub value: ValueView,
}

impl View for Property {
    type V = PropertyView;

    open spec fn view(&self) -> PropertyView {
        PropertyView {
            name: self.name@,
            value: match self.value {
                PropertyValue::Text(t) => ValueView::Text(t@),
                PropertyValue::Number(n) => ValueView::Number(n as nat),
            },
        }
    }
}

/// The views of the properties, in order.
pub open spec fn property_views(properties: Seq<Property>) -> Seq<PropertyView> {
    Seq::new(properties.len(), |i: int| properties[i]@)
}

/// A property whose value is a text.
pub open spec fn text_property(name: Seq<char>, text: Seq<char>) -> PropertyView {
    PropertyView { name, value: ValueView::Text(text) }
}

/// A property whose value is a number.
pub open spec fn number_property(name: Seq<char>, number: nat) -> PropertyView {
    PropertyView { name, value: ValueView::Number(number) }
}

/// The properties of a result: the request where the check kept it, both
/// durations where the attack has one, the status of the attack response and
/// the place of the request where the check names them.
pub open spec fn properties_of(check: CheckResultView) -> Seq<PropertyView> {
    (match check.payload {
        Some(payload) => seq![text_property("payload"@, payload)],
        None => Seq::empty(),
    }) + (match check.attack_duration_ms {
        Some(duration) => seq![
            number_property("normalDurationMs"@, check.normal_duration_ms),
            number_property("attackDurationMs"@, duration),
        ],
        None => Seq::empty(),
    }) + (match check.attack_status {
        Some(status) => seq![text_property("attackStatus"@, status)],
        None => Seq::empty(),
    }) + (match check.payload_index {
        Some(index) => seq![number_property("payloadIndex"@, index)],
        None => Seq::empty(),
    })
}

/// Collects the properties of a result.
pub fn result_properties(check: &CheckResult) -> (properties: Vec<Property>)
    ensures
        property_views(properties@) == properties_of(check@),
{
    let mut properties: Vec<Property> = Vec::new();
    let ghost none = Seq::<PropertyView>::empty();
    assert(property_views(properties@) =~= none);
    match &check.payload {
        Some(payload) => {
            properties.push(
                Property {
                    name: String::from_str("payload"),
                    value: PropertyValue::Text(payload.clone()),
                },
            );
        },
        None => {},
    }
    let ghost first = property_views(properties@);
    assert(first =~= match check@.payload {
        Some(payload) => seq![text_property("payload"@, payload)],
        None => none,
    });
    match check.attack_duration_ms {
        Some(duration) => {
            properties.push(
                Property {
                    name: String::from_str("normalDurationMs"),
                    value: PropertyValue::Number(check.normal_duration_ms),
                },
            );
            properties.push(
                Property {
                    name: String::from_str("attackDurationMs"),
                    value: PropertyValue::Number(duration),
                },
            );
        },
        None => {},
    }
    let ghost second = property_views(properties@);
    assert(second =~= first + match check@.attack_duration_ms {
        Some(duration) => seq![
            number_property("normalDurationMs"@, check@.normal_duration_ms),
            number_property("attackDurationMs"@, duration),
        ],
        None => none,
    });
    match &check.attack_status {
        Some(status) => {
            properties.push(
                Property {
                    name: String::from_str("attackStatus"),
                    value: PropertyValue::Text(status.clone()),
                },
            );
        },
        None => {},
    }
    let ghost third = property_views(properties@);
    assert(third =~= second + match check@.attack_status {
        Some(status) => seq![text_property("attackStatus"@, status)],
        None => none,
    });
    match check.payload_index {
        Some(index) => {
            properties.push(
                Property {
                    name: String::from_str("payloadIndex"),
                    value: PropertyValue::Number(index as u64),
                },
            );
        },
        None => {},
    }
    assert(property_views(properties@) =~= third + match check@.payload_index {
        Some(index) => seq![number_property("payloadIndex"@, index)],
        None => none,
    });
    properties
}

/// One result of the report: a vulnerable check.
#[derive(Debug, Clone)]
pub struct Finding {
    /// The rule that the result falls under: the name of the check category.
    pub rule_id: String,
    /// What was found.
    pub message: String,
    /// Where it was found: the URL of the target.
    pub uri: String,
    /// What else is known of it.
    pub properties: Vec<Property>,
}

/// The mathematical content of a `Finding`.
pub struct FindingView {
    pub rule_id: Seq<char>,
    pub message: Seq<char>,
    pub uri: Seq<char>,
    pub properties: Seq<PropertyView>,
}

impl View for Finding {
    type V = FindingView;

    open spec fn view(&self) -> FindingView {
        FindingView {
            rule_id: self.rule_id@,
            message: self.message@,
            uri: self.uri@,
            properties: property_views(self.properties@),
        }
    }
}

/// The views of the results, in order.
pub open spec fn finding_views(findings: Seq<Finding>) -> Seq<FindingView> {
    Seq::new(findings.len(), |i: int| findings[i]@)
}

/// The result that reports a check against a target.
pub open spec fn finding_of(check: CheckResultView, target: Seq<char>) -> FindingView {
    FindingView {
        rule_id: check.check_type,
        message: message_of(check),
        uri: target,
        properties: properties_of(check),
    }
}

/// Makes the result that reports a check against a target.
pub fn create_sarif_result(check: &CheckResult, target: &str) -> (finding: Finding)
    ensures
        finding@ == finding_of(check@, target@),
{
    Finding {
        rule_id: check.check_type.clone(),
        message: create_result_message(check),
        uri: String::from_str(target),
        properties: result_properties(check),
    }
}

/// The views of the checks, in order.
pub open spec fn check_views(checks: Seq<CheckResult>) -> Seq<CheckResultView> {
    Seq::new(checks.len(), |i: int| checks[i]@)
}

/// The results of a report: one for each vulnerable check, in the order of
/// the checks.
pub open spec fn findings_of(checks: Seq<CheckResultView>, target: Seq<char>) -> Seq<FindingView> {
    checks.filter(|check: CheckResultView| check.vulnerable).map_values(
        |check: CheckResultView| finding_of(check, target),
    )
}

/// Makes the results of a report from the checks of a scan.
pub fn convert_check_results(checks: &Vec<CheckResult>, target: &str) -> (findings: Vec<Finding>)
    ensures
        finding_views(findings@) == findings_of(check_views(checks@), target@),
{
    let ghost all = check_views(checks@);
    let ghost vulnerable = |check: CheckResultView| check.vulnerable;
    let mut findings: Vec<Finding> = Vec::new();
    let mut i: usize = 0;
    proof {
        reveal(Seq::filter);
        assert(all.take(0) =~= Seq::<CheckResultView>::empty());
        assert(finding_views(findings@) =~= findings_of(all.take(0), target@));
    }
    while i < checks.len()
        invariant
            i <= checks.len(),
            all == check_views(checks@),
            vulnerable == |check: CheckResultView| check.vulnerable,
            finding_views(findings@) == findings_of(all.take(i as int), target@),
        decreases checks.len() - i,
    {
        let ghost before = finding_views(findings@);
        proof {
            reveal(Seq::filter);
            assert(all.take(i + 1).drop_last() == all.take(i as int));
            assert(all.take(i + 1).last() == checks@[i as int]@);
        }
        if checks[i].vulnerable {
            let finding = create_sarif_result(&checks[i], target);
            findings.push(finding);
            assert(finding_views(findings@) =~= before.push(finding@));
            assert(findings_of(all.take(i + 1), target@) =~= before.push(finding@));
        } else {
            assert(findings_of(all.take(i + 1), target@) =~= before);
        }
        i += 1;
    }
    assert(all.take(checks.len() as int) == all);
    findings
}

/// A report on the scan of one target.
#[derive(Debug, Clone)]
pub struct Report {
    /// The version of the SARIF format.
    pub version: String,
    /// The name of the tool.
    pub tool_name: String,
    /// The version of the tool.
    pub tool_version: String,
    /// Where the tool is described.
    pub information_uri: String,
    /// The rules of the tool.
    pub rules: Vec<Rule>,
    /// One result for each vulnerable check.
    pub results: Vec<Finding>,
    /// The URL of the target, the one artifact of the run.
    pub artifact_uri: String,
}

/// Makes the report on a scan. The version of the tool is the caller's to
/// give.
pub fn convert_to_sarif(scan_results: &ScanResults, tool_version: &str) -> (report: Report)
    ensures
        report.version@ == SARIF_VERSION@,
        report.tool_name@ == TOOL_NAME@,
        report.tool_version@ == tool_version@,
        report.information_uri@ == TOOL_URI@,
        rule_views(report.rules@) == all_rules(),
        finding_views(report.results@) == findings_of(
            check_views(scan_results.checks@),
            scan_results.target@,
        ),
        report.artifact_uri@ == scan_results.target@,
{
    Report {
        version: String::from_str(SARIF_VERSION),
        tool_name: String::from_str(TOOL_NAME),
        tool_version: String::from_str(tool_version),
        information_uri: String::from_str(TOOL_URI),
        rules: create_rules(),
        results: convert_check_results(&scan_results.checks, scan_results.target.as_str()),
        artifact_uri: scan_results.target.clone(),
    }
}

} // verus!
