//! The about dialog's contents: the application metadata it presents.

use vstd::prelude::*;

verus! {

/// The software license named in the about dialog.
#[derive(Debug, Clone, Copy, PartialEq, Eq, Structural)]
pub enum License {
    /// The MIT/X11 license.
    MitX11,
}

/// The metadata shown in the about dialog.
#[derive(Debug, Clone)]
pub struct AboutInfo {
    /// Name shown at the top of the dialog.
    pub application_name: String,
    /// Icon of the application.
    pub application_icon: String,
    /// Name of the developer.
    pub developer_name: String,
    /// Version string.
    pub version: String,
    /// One-line description.
    pub comments: String,
    /// Project website.
    pub website: String,
    /// Issue tracker.
    pub issue_url: String,
    /// The developers, each with a contact line.
    pub developers: Vec<String>,
    /// Copyright line.
    pub copyright: String,
    /// License of the application.
    pub license: License,
}

/// Mathematical image of an [`AboutInfo`].
pub struct AboutInfoModel {
    pub application_name: Seq<char>,
    pub application_icon: Seq<char>,
    pub developer_name: Seq<char>,
    pub version: Seq<char>,
    pub comments: Seq<char>,
    pub website: Seq<char>,
    pub issue_url: Seq<char>,
    pub developers: Seq<Seq<char>>,
    pub copyright: Seq<char>,
    pub license: License,
}

impl View for AboutInfo {
    type V = AboutInfoModel;

    open spec fn view(&self) -> AboutInfoModel {
        AboutInfoModel {
            application_name: self.application_name@,
            application_icon: self.application_icon@,
            developer_name: self.developer_name@,
            version: self.version@,
            comments: self.comments@,
            website: self.website@,
            issue_url: self.issue_url@,
            developers: self.developers@.map_values(|d: String| d@),
            copyright: self.copyright@,
            license: self.license,
        }
    }
}

/// The metadata the about dialog presents.
pub open spec fn spec_about_info() -> AboutInfoModel {
    AboutInfoModel {
        application_name: "QTools"@,
        application_icon: "applications-development"@,
        developer_name: "Qinhuajun"@,
        version: "0.1.0"@,
        comments: "一个基于 Rust 和 GTK 的实用工具集"@,
        website: "https://github.com/qinhuajun/qtools"@,
        issue_url: "https://github.com/qinhuajun/qtools/issues"@,
        developers: seq!["Qinhuajun https://github.com/qinhuajun"@],
        copyright: "© 2025 Qinhuajun"@,
        license: License::MitX11,
    }
}

/// The about dialog; presenting it is the widget layer's work, the
/// metadata it presents is fixed here.
pub struct AppAboutDialog;

impl AppAboutDialog {
    /// The metadata the dialog presents.
    pub fn info() -> (r: AboutInfo)
        ensures
            r@ == spec_about_info(),
    {
        let mut developers: Vec<String> = Vec::new();
        developers.push(String::from_str("Qinhuajun https://github.com/qinhuajun"));
        let r = AboutInfo {
            application_name: String::from_str("QTools"),
            application_icon: String::from_str("applications-development"),
            developer_name: String::from_str("Qinhuajun"),
            version: String::from_str("0.1.0"),
            comments: String::from_str("一个基于 Rust 和 GTK 的实用工具集"),
            website: String::from_str("https://github.com/qinhuajun/qtools"),
            issue_url: String::from_str("https://github.com/qinhuajun/qtools/issues"),
            developers,
            copyright: String::from_str("© 2025 Qinhuajun"),
            license: License::MitX11,
        };
        proof {
            assert(r@.developers =~= spec_about_info().developers);
            assert(r@ =~= spec_about_info());
        }
        r
    }
}

} // verus!
