# Aegis

Aegis reads audit logs (JSON, syslog, web access, CSV, Windows event exports, AI-proxy and packet
captures), normalises them into records, maps them to NIST SP 800-53 / 800-171 / AI RMF controls,
keeps a forensic ledger with gap detection and process lineage, and writes the compliance
artifacts: a manifest, a commander's brief, OSCAL assessment results and plan of action, and a
chained proof-of-review receipt.

## Layout

- `src/` — the library, verified with Verus. Each public function's contract states its result
  as far as it does not rest on the clock, the time zone, chance, or an outside library's
  behaviour that is only named; the laws of the library stand as public proof functions (`law_*`).
  - parsing: `parsers/`, `json`, `time`, `pattern`, `text`, `num`, `metadata`
  - analysis: `engine`, `analysis`, `heuristics`, `mappings`, `tables`, `crosswalk`, `crosswalk_ai`
  - record keeping: `ledger`, `lineage`, `timeline`, `correlation`, `edge`, `redaction`, `monitor`
  - artifacts: `report`, `oscal`, `audit_receipt`, `compliance_cache`, `extraction`, `hub`
  - companion tools: `sentinel` (rule dispatcher), `watch` (file tailing), `vortex` (project
    context snapshots), `inventory` (storage bins)
- `tests/` — tests of the library on concrete values.
- `app/` — the programs around the library: command line, files, network, terminal UI, and the
  serialised forms of the library's types. The binary runs Aegis, or Sentinel, Vortex or the
  woodshop ledger when invoked under the name `sentinel`, `vortex` or `ledger`.
