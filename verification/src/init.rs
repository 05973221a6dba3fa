//! The first step in a new book's directory: a configuration file to start from.

use vstd::prelude::*;

verus! {

/// The name of the configuration file that `init` makes.
pub open spec fn config_file_name() -> Seq<char> {
    "config.txt"@
}

/// The configuration that a new book starts from: a value for every key that a
/// build looks up.
pub open spec fn default_config_text() -> Seq<char> {
    "pdf_sans_family = Bai Jamjuree\npdf_mono_family = DejaVu Sans Mono\npdf_standard_font = sans\npdf_default_font_size = 20\npdf_mono_font_size = 20\npdf_page_margin_left = 48\npdf_page_margin_right = 48\npdf_page_margin_top = 72\npdf_page_margin_bottom = 108\npaper_size = a4\npdf_toc_title=\u{0e2a}\u{0e32}\u{0e23}\u{0e1a}\u{0e31}\u{0e0d}\n"@
}

/// What `init` does.
#[derive(Debug, Clone, PartialEq, Eq)]
pub struct InitPlan {
    /// The file to write, as its name and its text; `None` where nothing is
    /// written.
    pub write: Option<(String, String)>,
    /// The line to print once that is done.
    pub report: String,
}

/// The configuration that a new book starts from.
pub fn default_config() -> (text: String)
    ensures
        text@ == default_config_text(),
{
    String::from_str(
        "pdf_sans_family = Bai Jamjuree\npdf_mono_family = DejaVu Sans Mono\npdf_standard_font = sans\npdf_default_font_size = 20\npdf_mono_font_size = 20\npdf_page_margin_left = 48\npdf_page_margin_right = 48\npdf_page_margin_top = 72\npdf_page_margin_bottom = 108\npaper_size = a4\npdf_toc_title=\u{0e2a}\u{0e32}\u{0e23}\u{0e1a}\u{0e31}\u{0e0d}\n",
    )
}

/// What `init` does, told whether the configuration file is there already: it
/// leaves a file that is there alone and says so, and else writes the default
/// configuration and says that.
pub fn plan_init(config_exists: bool) -> (plan: InitPlan)
    ensures
        match plan.write {
            Some(file) => !config_exists && file.0@ == config_file_name() && file.1@
                == default_config_text(),
            None => config_exists,
        },
        plan.report@ == if config_exists {
            "Config file already exists: config.txt"@
        } else {
            "Created default config file: config.txt"@
        },
{
    if config_exists {
        InitPlan {
            write: None,
            report: String::from_str("Config file already exists: config.txt"),
        }
    } else {
        InitPlan {
            write: Some((String::from_str("config.txt"), default_config())),
            report: String::from_str("Created default config file: config.txt"),
        }
    }
}

} // verus!
