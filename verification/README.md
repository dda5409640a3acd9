# hypo

hypo (High-trust Repository Operator) is a decentralised package manager: it
verifies and runs the install scripts that developers publish, trusting a
package only through a chain of checks (signed official directory, shard
digests, developer keys, signed package and manifest, manifest agreement,
per-file SHA256).

## Layout

- `src/` — the library, verified with Verus:
  - `commands/install_flow.rs` — the install as a flow driven by the caller.
    The caller performs the OpenPGP checks and hands each outcome (the signer's
    fingerprint, or the failure) to the flow, which accepts `registry.sig` only
    from an official key and `.hypo.sig` and `manifest.toml.sig` only from a
    key the developer's shard declares. A flow that reaches the script stage
    has passed every check of the trust chain: those three signatures, the
    shard digest, trust in the developer's keys, downgrade and freeze
    protection, the platform build, manifest agreement and the per-file
    digests with no undeclared file (`lemma_script_only_after_trust_chain`).
    That a signature check reports the right signer rests on `sequoia-openpgp`
    in the command line tool.
  - `commands/` — the other decisions of the commands (package and version
    choice, downgrade and freeze protection, platform build, `--from-url`).
  - `deps/` — dependency declarations, version selection (`semver`),
    topological order (`petgraph`) and the lockfile.
  - `package/` — the manifest, its consistency check, per-file digests
    (`sha2`) and the unpacking targets of a package file.
  - `registry/` — registry documents, shard digest check, the trust model
    for developer registries (`url`), the order in which a developer's public
    key is looked for (`key_lookup_step`, which uses a certificate only when
    its fingerprint is the declared one), trust in every key a shard declares
    (`ShardTrust`), and the HTTP cache index.
  - `crypto/verify.rs` — fingerprint allow-lists, signature outcomes and key
    rotation dates.
  - `executor/`, `prg_bar.rs`, `paths.rs`, `str_map.rs`, `text.rs` — script
    runs, the progress bar, the `~/.hypo` layout, a string-keyed map and
    character helpers.
- `app/` — the command line tool: HTTP, SQLite, OpenPGP, ZIP files, the
  terminal, and the serde forms of the library's types.
- `tests/` — tests of the library.
