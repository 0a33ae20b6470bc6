# spotuify

A terminal player for Spotify. It shows what is playing, the queue and the
tracks that were played, and controls playback through Spotify's Web API.

`src/` is the library, verified with Verus: what the keys and Spotify's answers
do, which requests are made, and what is shown where. `app/` is the terminal
program around it: it sends the requests, reads the keys, keeps the time and draws
what the library says. `tests/` holds the tests of the library.

| module | what it holds |
| --- | --- |
| `auth` | the steps that lead to an access token |
| `query`, `json` | named values in web addresses, texts in JSON |
| `model`, `error` | what Spotify tells, and what can be missing |
| `request`, `fetch` | the commands, and the questions for the state |
| `clock`, `history` | how long ago tracks were played |
| `action`, `app` | what the application can be told, and what it does |
| `keys`, `focus`, `selection` | what the keys do |
| `panel`, `popup`, `layout`, `picture` | what is shown, and where |
| `text`, `pairs` | building blocks |

The program needs `CLIENT_ID` in its environment or in a file `.env`, and keeps
the refresh token in a file `refresh_token` in its working directory.
