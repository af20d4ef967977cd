//! Uninstall and firewall registration: which keys are opened and which
//! string values are written under them, in which order.

use vstd::prelude::*;
use vstd::string::*;

verus! {

/// What to register for an installed application. Every field is text
/// supplied by the caller.
#[derive(Clone, Debug, PartialEq, Eq)]
pub struct Reg {
    pub display_name: String,
    pub display_version: String,
    pub publisher: String,
    pub install_location: String,
    pub uninstall_string: String,
}

/// One string value to set under a key.
#[derive(Debug, PartialEq, Eq)]
pub struct RegistryValue {
    pub name: String,
    pub data: String,
}

/// A string value as plain text.
pub struct ValueModel {
    pub name: Seq<char>,
    pub data: Seq<char>,
}

impl View for RegistryValue {
    type V = ValueModel;

    open spec fn view(&self) -> ValueModel {
        ValueModel { name: self.name@, data: self.data@ }
    }
}

/// A key below the local-machine root, to be created or opened, and the
/// values to set under it, first to last.
#[derive(Debug, PartialEq, Eq)]
pub struct KeyPlan {
    pub path: String,
    pub values: Vec<RegistryValue>,
}

/// A key and its values as plain text.
pub struct KeyModel {
    pub path: Seq<char>,
    pub values: Seq<ValueModel>,
}

impl View for KeyPlan {
    type V = KeyModel;

    open spec fn view(&self) -> KeyModel {
        KeyModel { path: self.path@, values: self.values@.map_values(|v: RegistryValue| v@) }
    }
}

/// Everything the registry writer does for one application: the uninstall
/// key is handled first, the firewall rules after it.
#[derive(Debug, PartialEq, Eq)]
pub struct RegistryPlan {
    pub uninstall: KeyPlan,
    pub firewall: KeyPlan,
}

/// The registration as plain text.
pub struct RegistryModel {
    pub uninstall: KeyModel,
    pub firewall: KeyModel,
}

impl View for RegistryPlan {
    type V = RegistryModel;

    open spec fn view(&self) -> RegistryModel {
        RegistryModel { uninstall: self.uninstall@, firewall: self.firewall@ }
    }
}

/// The uninstall key of an application: the uninstall location followed by
/// the display name.
pub open spec fn uninstall_key_path(display_name: Seq<char>) -> Seq<char> {
    "SOFTWARE\\Microsoft\\Windows\\CurrentVersion\\Uninstall\\"@ + display_name
}

/// The key that holds the firewall rules.
pub open spec fn firewall_key_path() -> Seq<char> {
    "SYSTEM\\CurrentControlSet\\Services\\SharedAccess\\Parameters\\FirewallPolicy\\FirewallRules"@
}

/// The six values of the uninstall key. The display icon is the install
/// location.
pub open spec fn uninstall_values(reg: Reg) -> Seq<ValueModel> {
    seq![
        ValueModel { name: "DisplayIcon"@, data: reg.install_location@ },
        ValueModel { name: "DisplayName"@, data: reg.display_name@ },
        ValueModel { name: "DisplayVersion"@, data: reg.display_version@ },
        ValueModel { name: "Publisher"@, data: reg.publisher@ },
        ValueModel { name: "InstallLocation"@, data: reg.install_location@ },
        ValueModel { name: "UninstallString"@, data: reg.uninstall_string@ },
    ]
}

/// The descriptor of a rule that allows TCP traffic of the application in
/// one direction. `direction` is `in` or `out`, `side` the word that ends
/// the rule's name.
pub open spec fn firewall_rule(
    direction: Seq<char>,
    side: Seq<char>,
    install_location: Seq<char>,
    display_name: Seq<char>,
) -> Seq<char> {
    "v2.0|Action=Allow|Active=TRUE|Dir="@ + direction + "|Protocol=TCP|App="@ + install_location
        + "|Name="@ + display_name + " "@ + side
}

/// The two firewall rules: inbound first, then outbound.
pub open spec fn firewall_values(reg: Reg) -> Seq<ValueModel> {
    seq![
        ValueModel {
            name: reg.display_name@ + "-In-TCP"@,
            data: firewall_rule("in"@, "Inbound"@, reg.install_location@, reg.display_name@),
        },
        ValueModel {
            name: reg.display_name@ + "-Out-TCP"@,
            data: firewall_rule("out"@, "Outbound"@, reg.install_location@, reg.display_name@),
        },
    ]
}

/// The whole registration of an application.
pub open spec fn planned_registry(reg: Reg) -> RegistryModel {
    RegistryModel {
        uninstall: KeyModel {
            path: uninstall_key_path(reg.display_name@),
            values: uninstall_values(reg),
        },
        firewall: KeyModel { path: firewall_key_path(), values: firewall_values(reg) },
    }
}

/// A value with a fixed name.
fn named_value(name: &str, data: &String) -> (value: RegistryValue)
    ensures
        value@ == (ValueModel { name: name@, data: data@ }),
{
    RegistryValue { name: String::from_str(name), data: data.clone() }
}

/// Writes out the descriptor of one firewall rule.
pub fn firewall_rule_text(direction: &str, side: &str, reg: &Reg) -> (rule: String)
    ensures
        rule@ == firewall_rule(direction@, side@, reg.install_location@, reg.display_name@),
{
    let mut rule = String::from_str("v2.0|Action=Allow|Active=TRUE|Dir=");
    rule.append(direction);
    rule.append("|Protocol=TCP|App=");
    rule.append(reg.install_location.as_str());
    rule.append("|Name=");
    rule.append(reg.display_name.as_str());
    rule.append(" ");
    rule.append(side);
    rule
}

/// One firewall rule as a value: its name is the display name followed by
/// `suffix`.
fn firewall_value(suffix: &str, direction: &str, side: &str, reg: &Reg) -> (value: RegistryValue)
    ensures
        value@ == (ValueModel {
            name: reg.display_name@ + suffix@,
            data: firewall_rule(direction@, side@, reg.install_location@, reg.display_name@),
        }),
{
    let mut name = reg.display_name.clone();
    name.append(suffix);
    RegistryValue { name, data: firewall_rule_text(direction, side, reg) }
}

/// Lays out the registration of an application: the uninstall key with its
/// six values, then the firewall key with an inbound and an outbound rule.
pub fn registry_plan(reg: &Reg) -> (plan: RegistryPlan)
    ensures
        plan@ == planned_registry(*reg),
{
    let mut path = String::from_str("SOFTWARE\\Microsoft\\Windows\\CurrentVersion\\Uninstall\\");
    path.append(reg.display_name.as_str());
    let mut values: Vec<RegistryValue> = Vec::new();
    values.push(named_value("DisplayIcon", &reg.install_location));
    values.push(named_value("DisplayName", &reg.display_name));
    values.push(named_value("DisplayVersion", &reg.display_version));
    values.push(named_value("Publisher", &reg.publisher));
    values.push(named_value("InstallLocation", &reg.install_location));
    values.push(named_value("UninstallString", &reg.uninstall_string));
    let uninstall = KeyPlan { path, values };

    let mut rules: Vec<RegistryValue> = Vec::new();
    rules.push(firewall_value("-In-TCP", "in", "Inbound", reg));
    rules.push(firewall_value("-Out-TCP", "out", "Outbound", reg));
    let firewall = KeyPlan {
        path: String::from_str(
            "SYSTEM\\CurrentControlSet\\Services\\SharedAccess\\Parameters\\FirewallPolicy\\FirewallRules",
        ),
        values: rules,
    };
    proof {
        assert(uninstall@.values =~= uninstall_values(*reg));
        assert(firewall@.values =~= firewall_values(*reg));
    }
    RegistryPlan { uninstall, firewall }
}

} // verus!
