//! The ASCII-art banner and its colour for each distribution.
use vstd::prelude::*;

use crate::distro::DistroId;
use crate::style::{bold_codes, bold_in, painted, Color};

verus! {

/// Banner art for Void.
pub const VOID_ART: &'static str = r"              __     __ 
.--.--.-----.|__|.--|  |
|  |  |  _  ||  ||  _  |
 \___/|_____||__||_____|
                        ";

/// Banner art for Artix.
pub const ARTIX_ART: &'static str = r"             __   __        
.---.-.----.|  |_|__|.--.--.
|  _  |   _||   _|  ||_   _|
|___._|__|  |____|__||__.__|
            ";

/// Banner art for Arch.
pub const ARCH_ART: &'static str = r"                  __    
.---.-.----.----.|  |--.
|  _  |   _|  __||     |
|___._|__| |____||__|__|
            ";

/// Banner art for Debian.
pub const DEBIAN_ART: &'static str = r"    __         __     __              
.--|  |.-----.|  |--.|__|.---.-.-----.
|  _  ||  -__||  _  ||  ||  _  |     |
|_____||_____||_____||__||___._|__|__|
            ";

/// Banner art for Ubuntu.
pub const UBUNTU_ART: &'static str = r"        __                 __         
.--.--.|  |--.--.--.-----.|  |_.--.--.
|  |  ||  _  |  |  |     ||   _|  |  |
|_____||_____|_____|__|__||____|_____|
            ";

/// Banner art for Gentoo.
pub const GENTOO_ART: &'static str = r"                    __               
.-----.-----.-----.|  |_.-----.-----.
|  _  |  -__|     ||   _|  _  |  _  |
|___  |_____|__|__||____|_____|_____|
|_____|";

/// Banner art for an unrecognised distribution.
pub const LINUX_ART: &'static str = r" __ __                    
|  |__|.-----.--.--.--.--.
|  |  ||     |  |  |_   _|
|__|__||__|__|_____|__.__|
        ";

/// A banner: its art and the colour it is shown in.
#[derive(Debug)]
pub struct Banner {
    pub art: String,
    pub color: Color,
}

pub open spec fn banner_art(id: DistroId) -> Seq<char> {
    match id {
        DistroId::Void => VOID_ART@,
        DistroId::Artix => ARTIX_ART@,
        DistroId::Arch => ARCH_ART@,
        DistroId::Debian => DEBIAN_ART@,
        DistroId::Ubuntu => UBUNTU_ART@,
        DistroId::Gentoo => GENTOO_ART@,
        DistroId::Unknown => LINUX_ART@,
    }
}

pub open spec fn banner_color(id: DistroId) -> Color {
    match id {
        DistroId::Void => Color::BrightGreen,
        DistroId::Arch | DistroId::Artix => Color::BrightBlue,
        DistroId::Debian | DistroId::Ubuntu => Color::BrightRed,
        DistroId::Gentoo => Color::Magenta,
        DistroId::Unknown => Color::BrightYellow,
    }
}

/// The banner for a distribution.
pub fn select_banner(id: DistroId) -> (r: Banner)
    ensures
        r.art@ == banner_art(id),
        r.color == banner_color(id),
{
    let art = match id {
        DistroId::Void => VOID_ART,
        DistroId::Artix => ARTIX_ART,
        DistroId::Arch => ARCH_ART,
        DistroId::Debian => DEBIAN_ART,
        DistroId::Ubuntu => UBUNTU_ART,
        DistroId::Gentoo => GENTOO_ART,
        DistroId::Unknown => LINUX_ART,
    };
    let color = match id {
        DistroId::Void => Color::BrightGreen,
        DistroId::Arch | DistroId::Artix => Color::BrightBlue,
        DistroId::Debian | DistroId::Ubuntu => Color::BrightRed,
        DistroId::Gentoo => Color::Magenta,
        DistroId::Unknown => Color::BrightYellow,
    };
    Banner { art: String::from_str(art), color }
}

/// The banner for a distribution, in bold in its colour.
pub fn read_banner(id: DistroId) -> (r: String)
    ensures
        !banner_art(id).contains('\x1b') ==> painted(
            r@,
            banner_art(id),
            bold_codes(banner_color(id)),
        ),
{
    let b = select_banner(id);
    bold_in(b.art.as_str(), b.color)
}

/// Two selections for the same distribution agree in art and colour.
pub proof fn lemma_banner_deterministic(id: DistroId, a: Banner, b: Banner)
    requires
        a.art@ == banner_art(id) && a.color == banner_color(id),
        b.art@ == banner_art(id) && b.color == banner_color(id),
    ensures
        a.art@ == b.art@,
        a.color == b.color,
{
}

} // verus!
