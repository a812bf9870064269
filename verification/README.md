# builder_api

The HTTP API of a package builder: signing in with GitHub, projects and their integrations, build
jobs and their logs. The decisions of its handlers are proved with Verus.

## How it is laid out

- `src/` is the verified library. `types` holds what handlers exchange with the services around
  them: actions, events and answers. `accounts`, `projects`, `project_create`, `project_update`,
  `integrations` and `jobs` hold the handlers. `text`, `param`, `json` and `encoding` read and write
  the plain values they work on. `run` speaks of whole runs of a handler.
- `app/` is the Iron server's side: it fills in a handler's first state from the request, performs
  the actions that the handler asks for, and renders its answer.
- `tests/` drives the handlers through concrete requests.

## What is proved

Every handler is a state machine. Its contract says, for each state and each event that the state
waits for, exactly which action comes next or how the request is answered. On top of that, public
proof functions state what holds of every run, whatever the services reply:

- no project is created, updated, deleted, shown or listed, nor its visibility changed or its jobs
  listed, before the account's access to its origin has been checked and granted, and a denied access
  ends the request; for integrations, what access they need is left to the server's check of the
  request's parameters;
- the log of a job that builds a private package is fetched and shown only to those with access;
- a project is created, updated, deleted, listed or shown exactly when everything before went well,
  and what is stored is what was asked for;
- the page of a project's jobs shows every job in its order, each complete one with the channels and
  platforms that were looked up for it;
- updating a project twice is updating it once, and the body of an integration that was created can
  be read back as JSON;
- a service's error is passed on as it is, except for integrations, where the answer tells a conflict
  or a missing integration from any other error;
- every request comes to an end, and no reply leaves a handler without a way on.

## What is trusted

The library calls `serde_json`, `base64`, `params` and `str::to_lowercase` through small wrappers
whose contracts are believed. They stand in `json`, `encoding`, `param` and `text`, each with a
comment on what it claims.
