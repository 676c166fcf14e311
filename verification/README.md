# codey

The decisions behind a coding assistant's model selection and sign-in screens, written in
Rust and verified with Verus.

- `src/context_window.rs`: the context window of a conversation grows in fixed steps, and a
  compaction may be retried once per turn at each step.
- `src/models/`: which models a provider offers, when to look at the cache or the network,
  which models are available and which one is the default, what the picker shows, and where
  replies are cached.
- `src/onboarding/`: signing in, the wizard for a custom provider, trying the provider out,
  the edits to the configuration file, and what the screens show.
- `src/auth.rs`, `src/text.rs`: the kinds of credentials, and what trimming means.

Every function states in its contract what it returns; the functions named `law_..` state what
holds across several of them.

`app/` holds what surrounds the library in a running program: locks, tasks, requests and
drawing. `tests/` runs the library on concrete values.
