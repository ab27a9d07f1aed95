# balsa_flakegen

Generates a NixOS flake (flake.nix, configuration.nix, hardware-configuration.nix and
disko-config.nix) from a Balsa install plan.

- `src/` is the verified library: the plan types and their validation (`plan`), Nix string
  escaping, output tidying, the tera engine set-up and generation (`generate`), the standalone
  disko rendering (`disko`), the `disko` subcommand's argument rules (`cli`) and properties
  proved across them (`laws`).
- `app/` is the `balsa-configgen` command: it reads TOML plans, reads the `.nix.j2` template
  files (from `$BALSA_TEMPLATES_DIR`, default `./templates`), serialises the plan for tera and
  writes the generated files.
