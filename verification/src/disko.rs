//! disko-config.nix on its own, for a disk layout without a full plan.
use vstd::prelude::*;
use tera::Tera;
use crate::generate::{RenderRequest, engine, engine_for, loads, never_fails, tidied, tidy};
use crate::plan::{DiskoConfig, disk_errors};
use crate::text::views;

verus! {

/// `req` asks for disko-config.nix.j2 with exactly these inputs.
pub open spec fn disko_request(req: RenderRequest, disk: DiskoConfig, legacy_bios: bool, esp_mount: Seq<char>) -> bool {
    match req {
        RenderRequest::Disko { disk: d, legacy_bios: l, esp_mount: e } => *d == disk && l == legacy_bios
            && e@ == esp_mount,
        _ => false,
    }
}

/// `render` is handed the engine built from `templates` and a request for disko-config.nix.j2
/// with these inputs, and produces a body; `out` is that body tidied.
pub open spec fn disko_rendered<F: Fn(&Tera, &RenderRequest) -> Result<String, String>>(
    render: F,
    templates: Seq<(String, String)>,
    disk: DiskoConfig,
    legacy_bios: bool,
    esp_mount: Seq<char>,
    out: Seq<char>,
) -> bool {
    exists|t: Tera, req: RenderRequest, b: String|
        engine_for(t, templates) && disko_request(req, disk, legacy_bios, esp_mount)
            && #[trigger] render.ensures((&t, &req), Ok(b)) && out == tidied(b@)
}

/// `render`, handed the engine built from `templates` and a request for disko-config.nix.j2
/// with these inputs, fails with the message `m`.
pub open spec fn disko_failed<F: Fn(&Tera, &RenderRequest) -> Result<String, String>>(
    render: F,
    templates: Seq<(String, String)>,
    disk: DiskoConfig,
    legacy_bios: bool,
    esp_mount: Seq<char>,
    m: String,
) -> bool {
    exists|t: Tera, req: RenderRequest|
        engine_for(t, templates) && disko_request(req, disk, legacy_bios, esp_mount)
            && #[trigger] render.ensures((&t, &req), Err(m))
}

/// Renders disko-config.nix alone; `legacy_bios` adds GRUB's BIOS partition, `esp_mount` places the ESP.
/// `templates` are loaded into a fresh engine, which `render` gets to fill in the disko template;
/// a template that fails to load or render is a template error.
pub fn generate_disko_config<F: Fn(&Tera, &RenderRequest) -> Result<String, String>>(
    disk: &DiskoConfig,
    legacy_bios: bool,
    esp_mount: &str,
    templates: &Vec<(String, String)>,
    render: &F,
) -> (r: Result<String, crate::Error>)
    requires
        forall|t: &Tera, req: &RenderRequest| render.requires((t, req)),
    ensures
        (r matches Err(crate::Error::Validation(_))) <==> disk_errors(*disk).len() > 0,
        r matches Err(crate::Error::Validation(e)) ==> views(e@) == disk_errors(*disk),
        disk_errors(*disk).len() == 0 && !loads(templates@) ==> r matches Err(crate::Error::Template(_)),
        disk_errors(*disk).len() == 0 && loads(templates@) && never_fails(*render) ==> r is Ok,
        r matches Ok(body) ==> disk_errors(*disk).len() == 0 && loads(templates@) && disko_rendered(
            *render,
            templates@,
            *disk,
            legacy_bios,
            esp_mount@,
            body@,
        ),
        disk_errors(*disk).len() == 0 && loads(templates@) ==> (r matches Err(e) ==> e matches crate::Error::Template(
            m,
        ) && disko_failed(*render, templates@, *disk, legacy_bios, esp_mount@, m)),
{
    if let Err(errs) = disk.validate() {
        return Err(crate::Error::Validation(errs));
    }
    let tera = match engine(templates) {
        Ok(t) => t,
        Err(msg) => return Err(crate::Error::Template(msg)),
    };
    let req = RenderRequest::Disko { disk, legacy_bios, esp_mount };
    assert(disko_request(req, *disk, legacy_bios, esp_mount@));
    match render(&tera, &req) {
        Ok(body) => Ok(tidy(body.as_str())),
        Err(m) => Err(crate::Error::Template(m)),
    }
}

} // verus!
