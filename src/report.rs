//! The text that `show config` and `show templates` print, line by line.

use crate::config::InitialConfig;
use vstd::prelude::*;

verus! {

/// Each name after a prefix.
pub open spec fn prefixed_names(prefix: Seq<char>, names: Seq<Seq<char>>) -> Seq<Seq<char>> {
    names.map_values(|n: Seq<char>| prefix + n)
}

fn prefixed_lines(prefix: &str, config: &InitialConfig, lines: &mut Vec<String>)
    ensures
        final(lines)@.map_values(|s: String| s@) == old(lines)@.map_values(|s: String| s@)
            + prefixed_names(prefix@, config.names()),
{
    let ghost start = lines@.map_values(|s: String| s@);
    let mut i: usize = 0;
    while i < config.templates.len()
        invariant
            i <= config.templates@.len(),
            lines@.map_values(|s: String| s@) =~= start + prefixed_names(
                prefix@,
                config.names().take(i as int),
            ),
        decreases config.templates@.len() - i,
    {
        assert(config.names()[i as int] == config.templates@[i as int].name@);
        let ghost before = lines@;
        let line = prefix.to_owned().concat(config.templates[i].name.as_str());
        lines.push(line);
        assert(lines@.map_values(|s: String| s@) =~= before.map_values(|s: String| s@).push(line@));
        i = i + 1;
        assert(config.names().take(i as int) =~= config.names().take(i - 1).push(config.names()[i - 1]));
        assert(prefixed_names(prefix@, config.names().take(i as int)) =~= prefixed_names(
            prefix@,
            config.names().take(i - 1),
        ).push(prefix@ + config.names()[i - 1]));
    }
    assert(config.names().take(i as int) =~= config.names());
}

/// The lines of `show config`, given where the record is stored.
pub fn show_config_lines(config: &InitialConfig, config_file_path: &str) -> (r: Vec<String>)
    ensures
        r@.map_values(|s: String| s@) == seq![
            "Config file path: "@ + config_file_path@,
            "Version: "@ + config.version@,
            "Template directory: "@ + config.template_absolute_path@,
            "Templates: "@,
        ] + prefixed_names("\t- "@, config.names()),
{
    let mut lines: Vec<String> = Vec::new();
    lines.push("Config file path: ".to_owned().concat(config_file_path));
    lines.push("Version: ".to_owned().concat(config.version.as_str()));
    lines.push("Template directory: ".to_owned().concat(config.template_absolute_path.as_str()));
    lines.push("Templates: ".to_owned());
    prefixed_lines("\t- ", config, &mut lines);
    lines
}

/// The lines of `show templates`.
pub fn show_templates_lines(config: &InitialConfig) -> (r: Vec<String>)
    ensures
        r@.map_values(|s: String| s@) == if config.names().len() == 0 {
            seq!["No templates found"@]
        } else {
            prefixed_names("- "@, config.names())
        },
{
    let mut lines: Vec<String> = Vec::new();
    if config.templates.len() == 0 {
        lines.push("No templates found".to_owned());
        return lines;
    }
    prefixed_lines("- ", config, &mut lines);
    lines
}

} // verus!
